//! The source of choices of the document builder: the `Unstructured` of
//! `arbitrary`, a stretch of bytes from which values are taken one after the
//! other. What this module states of it is taken on trust from arbitrary's
//! source.

use vstd::prelude::*;

verus! {

/// `arbitrary::Unstructured`, of which Verus sees nothing but what the
/// functions below state.
#[verifier::external_type_specification]
#[verifier::external_body]
pub struct ExUnstructured<'a>(arbitrary::Unstructured<'a>);

/// Why a value could not be taken.
#[derive(Clone, Copy, Debug, PartialEq, Eq, Structural)]
pub enum BuildError {
    /// A choice among nothing was asked for.
    EmptyChoose,
    /// The bytes do not suffice.
    NotEnoughData,
    /// The bytes are not of the form asked for.
    IncorrectFormat,
}

/// The bytes that are left in the source.
pub uninterp spec fn remaining(u: arbitrary::Unstructured<'static>) -> Seq<u8>;

/// What `choose_index` makes of the bytes `data` for a choice among `len`:
/// the index that it takes out of them, and the bytes that it leaves.
pub uninterp spec fn choice(data: Seq<u8>, len: usize) -> (usize, Seq<u8>);

/// Byte `i` of the bytes, or zero where they are shorter.
pub open spec fn byte_or_zero(data: Seq<u8>, i: int) -> u8 {
    if 0 <= i < data.len() {
        data[i]
    } else {
        0
    }
}

/// The bytes that are left when `n` have been taken: fewer are taken where
/// fewer are there.
pub open spec fn after(data: Seq<u8>, n: int) -> Seq<u8> {
    if n <= data.len() {
        data.skip(n)
    } else {
        Seq::empty()
    }
}

/// The number that the first four bytes are, the lowest byte first. Bytes
/// that are not there count as zero.
pub open spec fn u32_drawn(data: Seq<u8>) -> int {
    byte_or_zero(data, 0) + 0x100 * byte_or_zero(data, 1) + 0x1_0000 * byte_or_zero(data, 2)
        + 0x100_0000 * byte_or_zero(data, 3)
}

/// Calls `Unstructured::arbitrary` for a `u8`: the first byte is taken from
/// the source; from an empty source zero comes, and it stays empty.
#[verifier::external_body]
pub(crate) fn draw_u8<'a>(u: &mut arbitrary::Unstructured<'a>) -> (r: Result<u8, BuildError>)
    ensures
        r == Ok::<u8, BuildError>(byte_or_zero(remaining(*old(u)), 0)),
        remaining(*final(u)) == after(remaining(*old(u)), 1),
{
    match u.arbitrary::<u8>() {
        Ok(b) => Ok(b),
        Err(arbitrary::Error::EmptyChoose) => Err(BuildError::EmptyChoose),
        Err(arbitrary::Error::NotEnoughData) => Err(BuildError::NotEnoughData),
        Err(_) => Err(BuildError::IncorrectFormat),
    }
}

/// Calls `Unstructured::arbitrary` for a `u32`: the first four bytes are
/// taken from the source and read with the lowest byte first; bytes that
/// are not there count as zero.
#[verifier::external_body]
pub(crate) fn draw_u32<'a>(u: &mut arbitrary::Unstructured<'a>) -> (r: Result<u32, BuildError>)
    ensures
        r matches Ok(x) && x == u32_drawn(remaining(*old(u))),
        remaining(*final(u)) == after(remaining(*old(u)), 4),
{
    match u.arbitrary::<u32>() {
        Ok(x) => Ok(x),
        Err(arbitrary::Error::EmptyChoose) => Err(BuildError::EmptyChoose),
        Err(arbitrary::Error::NotEnoughData) => Err(BuildError::NotEnoughData),
        Err(_) => Err(BuildError::IncorrectFormat),
    }
}

/// Calls `Unstructured::choose_index`: a choice among nothing is an error
/// and takes nothing; else an index below `len` comes, and bytes are taken
/// from the front of the source.
#[verifier::external_body]
pub(crate) fn draw_index<'a>(u: &mut arbitrary::Unstructured<'a>, len: usize) -> (r: Result<usize, BuildError>)
    ensures
        r == if len == 0 {
            Err::<usize, BuildError>(BuildError::EmptyChoose)
        } else {
            Ok::<usize, BuildError>(choice(remaining(*old(u)), len).0)
        },
        r matches Ok(i) ==> i < len,
        remaining(*final(u)) == if len == 0 {
            remaining(*old(u))
        } else {
            choice(remaining(*old(u)), len).1
        },
        remaining(*final(u)).len() <= remaining(*old(u)).len(),
        remaining(*final(u)) == remaining(*old(u)).skip(
            remaining(*old(u)).len() - remaining(*final(u)).len(),
        ),
{
    match u.choose_index(len) {
        Ok(i) => Ok(i),
        Err(arbitrary::Error::EmptyChoose) => Err(BuildError::EmptyChoose),
        Err(arbitrary::Error::NotEnoughData) => Err(BuildError::NotEnoughData),
        Err(_) => Err(BuildError::IncorrectFormat),
    }
}

/// Calls `Unstructured::new`: a source that holds the bytes.
#[verifier::external_body]
pub(crate) fn source_of<'a>(data: &'a [u8]) -> (u: arbitrary::Unstructured<'a>)
    ensures
        remaining(u) == data@,
{
    arbitrary::Unstructured::new(data)
}

} // verus!
