use crate::scan_codes::ReportCodes;
use crate::NUM_KEYS;
use vstd::prelude::*;

verus! {

/// `heapless::Vec`, the fixed-capacity vector that holds the codes of one scan.
#[verifier::external_type_specification]
#[verifier::external_body]
#[verifier::reject_recursive_types(T)]
pub struct ExHeaplessVec<T, const N: usize>(heapless::Vec<T, N>);

/// Number of codes one scan can hold.
pub const CODE_CAPACITY: usize = 64;

/// The codes in a code set, oldest first.
pub uninterp spec fn report_codes(set: heapless::Vec<ReportCodes, 64>) -> Seq<ReportCodes>;

/// The key indexes in an index set, oldest first.
pub uninterp spec fn key_indexes(set: heapless::Vec<usize, NUM_KEYS>) -> Seq<usize>;

/// `heapless::Vec::new`: a code set that holds nothing.
#[verifier::external_body]
pub(crate) fn empty_code_set() -> (set: heapless::Vec<ReportCodes, 64>)
    ensures
        report_codes(set) == Seq::<ReportCodes>::empty(),
{
    heapless::Vec::new()
}

/// A code set for the codes of one scan, with nothing in it yet.
pub fn new_code_set() -> (set: heapless::Vec<ReportCodes, 64>)
    ensures
        report_codes(set) == Seq::<ReportCodes>::empty(),
{
    empty_code_set()
}

/// `heapless::Vec::push`: appends the code when fewer than 64 are held, and
/// hands it back, leaving the set as it was, when the set is full.
#[verifier::external_body]
pub(crate) fn push_code(set: &mut heapless::Vec<ReportCodes, 64>, code: ReportCodes) -> (r: Result<
    (),
    ReportCodes,
>)
    ensures
        r is Ok <==> report_codes(*old(set)).len() < CODE_CAPACITY,
        r is Ok ==> report_codes(*final(set)) == report_codes(*old(set)).push(code),
        r matches Err(back) ==> back == code && report_codes(*final(set)) == report_codes(
            *old(set),
        ),
{
    set.push(code)
}

/// `heapless::Vec::clear`: removes every code.
#[verifier::external_body]
pub(crate) fn clear_codes(set: &mut heapless::Vec<ReportCodes, 64>)
    ensures
        report_codes(*final(set)) == Seq::<ReportCodes>::empty(),
{
    set.clear()
}

/// `heapless::Vec::as_slice`: the codes held, oldest first, which are never
/// more than the capacity.
#[verifier::external_body]
pub(crate) fn codes_as_slice(set: &heapless::Vec<ReportCodes, 64>) -> (codes: &[ReportCodes])
    ensures
        codes@ == report_codes(*set),
        codes@.len() <= CODE_CAPACITY,
{
    set.as_slice()
}

/// `heapless::Vec::new`: an index set that holds nothing.
#[verifier::external_body]
pub(crate) fn new_index_set() -> (set: heapless::Vec<usize, NUM_KEYS>)
    ensures
        key_indexes(set) == Seq::<usize>::empty(),
{
    heapless::Vec::new()
}

/// `heapless::Vec::push`: appends the index when fewer than `NUM_KEYS` are
/// held, and hands it back, leaving the set as it was, when the set is full.
#[verifier::external_body]
pub(crate) fn push_index(set: &mut heapless::Vec<usize, NUM_KEYS>, index: usize) -> (r: Result<
    (),
    usize,
>)
    ensures
        r is Ok <==> key_indexes(*old(set)).len() < NUM_KEYS,
        r is Ok ==> key_indexes(*final(set)) == key_indexes(*old(set)).push(index),
        r matches Err(back) ==> back == index && key_indexes(*final(set)) == key_indexes(
            *old(set),
        ),
{
    set.push(index)
}

} // verus!
