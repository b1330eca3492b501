use vstd::prelude::*;
use crate::status::Status;

verus! {

/// What a native source hands back for one call of an enumeration: its
/// status, the count it reported, and the elements it wrote.
pub type Answer<T> = (Status, u32, Vec<T>);

/// How many elements of the second call's answer are kept: never more than
/// the capacity the call was given, the count it reported, or what it wrote.
pub open spec fn committed_len(capacity: u32, reported: u32, written: nat) -> nat {
    let a: nat = if capacity <= reported { capacity as nat } else { reported as nat };
    if a <= written { a } else { written }
}

/// The result of an enumeration whose second call, given `capacity`, answered
/// with `status`, `reported` and `data`. Only the second call's status counts.
pub open spec fn enumeration_result<T>(capacity: u32, status: Status, reported: u32, data: Seq<T>)
    -> Result<Seq<T>, Status>
{
    if status.spec_is_success() {
        Ok(data.take(committed_len(capacity, reported, data.len()) as int))
    } else {
        Err(status)
    }
}

pub open spec fn result_seq<T>(r: Result<Vec<T>, Status>) -> Result<Seq<T>, Status> {
    match r {
        Ok(v) => Ok(v@),
        Err(e) => Err(e),
    }
}

/// Finishes an enumeration from what its second call answered: on success the
/// elements written, cut to the committed length; otherwise the status, with
/// the buffer dropped.
pub fn finish_enumeration<T>(capacity: u32, status: Status, reported: u32, data: Vec<T>) -> (r: Result<
    Vec<T>,
    Status,
>)
    ensures
        result_seq(r) == enumeration_result(capacity, status, reported, data@),
        r is Ok <==> status.spec_is_success(),
        r matches Err(e) ==> e == status,
        r matches Ok(v) ==> v@.len() <= capacity && v@.len() <= reported,
{
    if status.is_success() {
        let ghost given = data@;
        let mut data = data;
        let keep: u32 = if capacity <= reported { capacity } else { reported };
        data.truncate(keep as usize);
        assert(data@ =~= given.take(committed_len(capacity, reported, given.len()) as int));
        Ok(data)
    } else {
        Err(status)
    }
}

/// Runs the two-call protocol against `query`, which performs the native
/// call: `None` asks for the count only (null buffer); `Some(n)` passes a
/// buffer of capacity `n`. The second call is given exactly the count that the
/// first reported, and the result is what that second call's answer gives.
pub fn enumerate_two_call<T, F: Fn(Option<u32>) -> Answer<T>>(query: &F) -> (r: Result<Vec<T>, Status>)
    requires
        forall|c: Option<u32>| query.requires((c,)),
    ensures
        exists|first: Answer<T>, second: Answer<T>|
            query.ensures((None,), first) && query.ensures((Some(first.1),), second)
                && result_seq(r) == enumeration_result(first.1, second.0, second.1, second.2@),
{
    let first = query(None);
    let count = first.1;
    let second = query(Some(count));
    let (status, reported, data) = second;
    let r = finish_enumeration(count, status, reported, data);
    assert(query.ensures((Some(first.1),), (status, reported, data)));
    r
}

/// An enumeration never yields more elements than the capacity its second
/// call was given, nor more than that call reported.
pub proof fn lemma_enumeration_bounded<T>(capacity: u32, status: Status, reported: u32, data: Seq<T>)
    ensures
        enumeration_result(capacity, status, reported, data) matches Ok(s) ==> s.len() <= capacity
            && s.len() <= reported,
{
}

/// An enumeration whose second call succeeds yields exactly the elements
/// written, up to the committed length; with a count of zero, that is an
/// empty result and not an error.
pub proof fn lemma_enumeration_success<T>(capacity: u32, status: Status, reported: u32, data: Seq<T>)
    requires
        status.spec_is_success(),
    ensures
        enumeration_result(capacity, status, reported, data) == Ok::<Seq<T>, Status>(
            data.take(committed_len(capacity, reported, data.len()) as int),
        ),
        capacity == 0 ==> enumeration_result(capacity, status, reported, data) == Ok::<Seq<T>, Status>(
            Seq::<T>::empty(),
        ),
{
    if capacity == 0 {
        assert(data.take(0) =~= Seq::<T>::empty());
    }
}

/// A source that answers every call the same way: nothing changed between
/// two calls with the same arguments.
pub open spec fn answers_consistently<T, F: Fn(Option<u32>) -> Answer<T>>(query: F) -> bool {
    forall|c: Option<u32>, a: Answer<T>, b: Answer<T>|
        #![trigger query.ensures((c,), a), query.ensures((c,), b)]
        query.ensures((c,), a) && query.ensures((c,), b) ==> a.0 == b.0 && a.1 == b.1 && a.2@ == b.2@
}

/// Two enumerations of a source that did not change between them give equal
/// results.
pub proof fn lemma_enumeration_repeatable<T, F: Fn(Option<u32>) -> Answer<T>>(
    query: F,
    first1: Answer<T>,
    second1: Answer<T>,
    first2: Answer<T>,
    second2: Answer<T>,
)
    requires
        answers_consistently(query),
        query.ensures((None,), first1),
        query.ensures((Some(first1.1),), second1),
        query.ensures((None,), first2),
        query.ensures((Some(first2.1),), second2),
    ensures
        enumeration_result(first1.1, second1.0, second1.1, second1.2@) == enumeration_result(
            first2.1,
            second2.0,
            second2.1,
            second2.2@,
        ),
{
    assert(first1.1 == first2.1);
    assert(second1.2@ == second2.2@);
}

} // verus!
