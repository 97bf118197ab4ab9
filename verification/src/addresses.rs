//! The fixed accounts of the protocol and of the token programs it calls.
use vstd::prelude::*;
use crate::accounts::Address;

verus! {

/// The program that owns every pool.
pub const SYMMETRY_PROGRAM_ADDRESS: [u8; 32] = [
    19, 162, 196, 157, 226, 150, 107, 27, 130, 85, 139, 174, 58, 3, 78, 171,
    47, 210, 62, 227, 98, 44, 44, 192, 142, 1, 62, 17, 31, 211, 66, 83,
];

/// The account that holds the list of supported tokens.
pub const TOKEN_LIST_ADDRESS: [u8; 32] = [
    36, 82, 81, 223, 52, 135, 247, 124, 251, 218, 14, 212, 87, 21, 229, 47,
    156, 188, 86, 27, 160, 50, 181, 143, 131, 157, 212, 246, 244, 249, 81, 119,
];

/// The account that holds the price curves.
pub const CURVE_DATA_ADDRESS: [u8; 32] = [
    50, 142, 220, 89, 220, 102, 211, 28, 74, 15, 90, 91, 215, 196, 176, 134,
    202, 204, 171, 26, 251, 233, 87, 134, 163, 17, 222, 207, 54, 97, 41, 14,
];

/// The authority over the pools' token accounts.
pub const PDA_ADDRESS: [u8; 32] = [
    153, 126, 212, 127, 168, 211, 194, 168, 20, 88, 28, 41, 92, 3, 95, 199,
    59, 21, 216, 5, 170, 131, 12, 133, 166, 16, 183, 170, 18, 52, 168, 61,
];

/// The owner of the accounts that collect the protocol's part of the fees.
pub const SWAP_FEE_ADDRESS: [u8; 32] = [
    141, 82, 236, 1, 178, 98, 75, 220, 248, 91, 113, 191, 175, 169, 251, 2,
    112, 52, 118, 22, 205, 125, 197, 185, 38, 14, 225, 22, 83, 82, 201, 135,
];

/// The associated token account program.
pub const ASSOCIATED_TOKEN_PROGRAM_ADDRESS: [u8; 32] = [
    140, 151, 37, 143, 78, 36, 137, 241, 187, 61, 16, 41, 20, 142, 13, 131,
    11, 90, 19, 153, 218, 255, 16, 132, 4, 142, 123, 216, 219, 233, 248, 89,
];

/// The token program.
pub const SPL_TOKEN_PROGRAM_ADDRESS: [u8; 32] = [
    6, 221, 246, 225, 215, 101, 161, 147, 217, 203, 225, 70, 206, 235, 121, 172,
    28, 180, 133, 237, 95, 91, 55, 145, 58, 140, 245, 133, 126, 255, 0, 169,
];

/// The number by which the program knows its swap instruction.
pub const SYMMETRY_PROGRAM_SWAP_INSTRUCTION_ID: u64 = 219478785678209410;

/// The address made of `bytes`.
pub fn address(bytes: [u8; 32]) -> (r: Address)
    ensures
        r@ == bytes@,
{
    Address { bytes }
}

} // verus!
