use pump::state::global_config::{get_virtual_sol_reserve, get_virtual_token_reserve, GlobalConfig};

fn zero_config() -> GlobalConfig {
    GlobalConfig { token_to_sell: 0, token_to_mint: 0, virtual_token_reserve: 0, virtual_sol_reserve: 0, bump: 0 }
}

fn account_bytes(c: &GlobalConfig) -> Vec<u8> {
    let mut v = vec![0xAA; 8];
    v.extend_from_slice(&c.token_to_sell.to_le_bytes());
    v.extend_from_slice(&c.token_to_mint.to_le_bytes());
    v.extend_from_slice(&c.virtual_token_reserve.to_le_bytes());
    v.extend_from_slice(&c.virtual_sol_reserve.to_le_bytes());
    v.push(c.bump);
    v
}

#[test]
fn init_sets_launch_defaults() {
    let mut c = zero_config();
    assert!(c.init_global_config(&254).is_ok());
    assert_eq!(c.token_to_sell(), 800_000_000);
    assert_eq!(c.token_to_mint(), 1_000_000_000);
    assert_eq!(c.virtual_token_reserve(), 800_000_000);
    assert_eq!(c.virtual_sol_reserve(), 30_000_000_000);
    assert_eq!(c.bump(), 254);
}

#[test]
fn readers_find_stored_reserves() {
    let c = GlobalConfig {
        token_to_sell: 1,
        token_to_mint: 2,
        virtual_token_reserve: 0x0102_0304_0506_0708,
        virtual_sol_reserve: u64::MAX - 5,
        bump: 9,
    };
    let data = account_bytes(&c);
    assert_eq!(get_virtual_token_reserve(&data), 0x0102_0304_0506_0708);
    assert_eq!(get_virtual_sol_reserve(&data), u64::MAX - 5);
}

#[test]
fn readers_decode_little_endian() {
    let mut data = vec![0u8; 40];
    data[24] = 1;
    data[31] = 0x80;
    data[32] = 0xff;
    assert_eq!(get_virtual_token_reserve(&data), 0x8000_0000_0000_0001);
    assert_eq!(get_virtual_sol_reserve(&data), 0xff);
    assert_eq!(get_virtual_token_reserve(&data[..32]), 0x8000_0000_0000_0001);
}
