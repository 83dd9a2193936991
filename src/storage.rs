use vstd::prelude::*;
use crate::constants::MAX_PERMITTED_DATA_LENGTH;

verus! {

/// Bytes of loader metadata in front of the payload in a write buffer.
pub const BUFFER_METADATA_SIZE: usize = 37;

/// Bytes of loader metadata in front of the payload in final program storage.
pub const PROGRAMDATA_METADATA_SIZE: usize = 45;

/// Size of the temporary buffer account for a payload of `payload_len`
/// bytes: the metadata plus the payload, saturating at `usize::MAX`.
pub fn size_of_buffer(payload_len: usize) -> (r: usize)
    ensures
        r == if payload_len + BUFFER_METADATA_SIZE <= usize::MAX {
            payload_len + BUFFER_METADATA_SIZE
        } else {
            usize::MAX as int
        },
{
    BUFFER_METADATA_SIZE.saturating_add(payload_len)
}

/// Size of the final program-data account for a payload of `payload_len`
/// bytes: the metadata plus the payload, saturating at `usize::MAX`.
pub fn size_of_programdata(payload_len: usize) -> (r: usize)
    ensures
        r == if payload_len + PROGRAMDATA_METADATA_SIZE <= usize::MAX {
            payload_len + PROGRAMDATA_METADATA_SIZE
        } else {
            usize::MAX as int
        },
{
    PROGRAMDATA_METADATA_SIZE.saturating_add(payload_len)
}

/// New size of a program-data account grown by `additional_bytes`; `None`
/// when it would exceed the largest permitted account size.
pub fn extended_size(current_size: usize, additional_bytes: u32) -> (r: Option<usize>)
    ensures
        current_size + additional_bytes <= MAX_PERMITTED_DATA_LENGTH ==> r == Some((current_size + additional_bytes) as usize),
        current_size + additional_bytes > MAX_PERMITTED_DATA_LENGTH ==> r is None,
{
    if current_size > MAX_PERMITTED_DATA_LENGTH || additional_bytes as usize > MAX_PERMITTED_DATA_LENGTH - current_size {
        None
    } else {
        Some(current_size + additional_bytes as usize)
    }
}

/// Lamports still to deposit for an account holding `current_lamports` to
/// reach `required_lamports`; zero when it already holds enough.
pub fn additional_rent(required_lamports: u64, current_lamports: u64) -> (r: u64)
    ensures
        r == if required_lamports > current_lamports { required_lamports - current_lamports } else { 0 },
{
    required_lamports.saturating_sub(current_lamports)
}

} // verus!
