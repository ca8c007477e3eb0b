//! Random numbers from the Gear runtime.
//!
//! The runtime's random seed and the id of the message being processed are
//! reached through the trusted wrappers below; turning the seed into a
//! number is verified.
//!
//! The runtime's system calls exist only when the program runs as wasm32
//! inside the Gear runtime. Built for any other target, `gsys` stands in
//! with functions that panic (`unimplemented!`), so there `get_random_u32`,
//! and every function that draws through it (`init_first_player`,
//! `restart_game`, and `get_pebbles_to_remove` and `handle_action` at the
//! easy level), panics. Native callers use the functions that take the
//! random number as an argument (`first_player_from`, `pebbles_to_remove`,
//! `start_game`, `play_turn`, `handle_action_with`).

use vstd::prelude::*;

verus! {

#[verifier::external_type_specification]
#[verifier::external_body]
pub struct ExCoreError(gstd::errors::CoreError);

/// The id of the message being processed, as its 32 bytes
/// (`gstd::msg::id`, then `MessageId::into_bytes`). The id is chosen by the
/// runtime, so nothing is claimed of it.
#[verifier::external_body]
fn current_message_id() -> (id: [u8; 32]) {
    gstd::msg::id().into_bytes()
}

/// The runtime's random hash for `subject` (`gstd::exec::random`, which is
/// `gcore::exec::random`). Its source returns `Ok` unconditionally, which is
/// all that is claimed: the hash depends on the block's random seed and is
/// left free.
#[verifier::external_body]
fn runtime_random(subject: [u8; 32]) -> (res: Result<([u8; 32], u32), gstd::errors::CoreError>)
    ensures
        res is Ok,
{
    gstd::exec::random(subject)
}

/// The number whose little-endian bytes are `b0`, `b1`, `b2`, `b3`.
pub open spec fn le_u32(b0: u8, b1: u8, b2: u8, b3: u8) -> int {
    b0 + 256 * b1 + 65536 * b2 + 16777216 * b3
}

/// The number made of the first four bytes of `hash`, read little-endian.
pub fn u32_from_hash(hash: &[u8; 32]) -> (r: u32)
    ensures
        r == le_u32(hash@[0], hash@[1], hash@[2], hash@[3]),
{
    let b0: u32 = hash[0] as u32;
    let b1: u32 = hash[1] as u32;
    let b2: u32 = hash[2] as u32;
    let b3: u32 = hash[3] as u32;
    b0 + 256 * b1 + 65536 * b2 + 16777216 * b3
}

/// A random number, taken from the runtime's random hash for the id of the
/// message being processed. Any `u32` may come back. Outside the wasm32
/// runtime the underlying system calls panic.
pub fn get_random_u32() -> (r: u32) {
    let salt = current_message_id();
    match runtime_random(salt) {
        Ok((hash, _block)) => u32_from_hash(&hash),
        Err(_) => {
            proof {
                assert(false);
            }
            0
        },
    }
}

} // verus!
