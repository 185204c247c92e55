use vstd::prelude::*;

verus! {

/// Label from which the custody authority is derived (`b"escrow"`).
pub const VAULT_AUTHORITY_SEED: [u8; 6] = [101, 115, 99, 114, 111, 119];

/// Label from which the custody holder's own address is derived (`b"token-seed"`).
pub const VAULT_ACCOUNT_SEED: [u8; 10] = [116, 111, 107, 101, 110, 45, 115, 101, 101, 100];

} // verus!
