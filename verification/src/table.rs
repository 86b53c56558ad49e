//! Tables of fixed-size entries: what an entry type has to offer, and the one
//! loop that decodes a table of any such type.

use vstd::prelude::*;
use crate::error::DecodeError;
use crate::reader::ByteSource;

verus! {

/// A record of fixed size that can be decoded from a byte source.
pub trait TableEntry: Sized {
    /// Number of bytes one entry takes in a file.
    spec fn entry_size() -> nat;

    /// What decoding the bytes of `s` from `at` on yields.
    spec fn decoded(s: Seq<u8>, at: int) -> Result<Self, DecodeError>;

    /// The bytes that stand for this entry in a file.
    spec fn encoded(&self) -> Seq<u8>;

    /// Decodes one entry at the cursor. On success the cursor has moved behind
    /// the entry; on failure it has not moved.
    fn decode(io: &mut ByteSource) -> (r: Result<Self, DecodeError>)
        ensures
            r == Self::decoded(old(io)@.bytes, old(io)@.pos as int),
            final(io)@.bytes == old(io)@.bytes,
            r is Ok ==> final(io)@.pos == old(io)@.pos + Self::entry_size(),
            r is Err ==> final(io)@.pos == old(io)@.pos,
    ;

    /// Decoding gives back the entry that a run of bytes was made from.
    proof fn lemma_roundtrip(m: Self, s: Seq<u8>, at: int)
        requires
            0 <= at,
            at + Self::entry_size() <= s.len(),
            s.subrange(at, at + Self::entry_size()) == m.encoded(),
        ensures
            Self::decoded(s, at) == Ok::<Self, DecodeError>(m),
    ;
}

/// Offset of entry `i` of a table of `R` that starts at `at`.
pub open spec fn entry_at<R: TableEntry>(at: int, i: int) -> int {
    at + i * R::entry_size()
}

/// What decoding `n` entries, one behind the other from `at` on, yields: the
/// entries in file order, or the error of the first entry that does not
/// decode.
pub open spec fn spec_table<R: TableEntry>(s: Seq<u8>, at: int, n: nat) -> Result<
    Seq<R>,
    DecodeError,
>
    decreases n,
{
    if n == 0 {
        Ok(Seq::empty())
    } else {
        match spec_table::<R>(s, at, (n - 1) as nat) {
            Err(e) => Err(e),
            Ok(front) => match R::decoded(s, entry_at::<R>(at, n - 1)) {
                Err(e) => Err(e),
                Ok(entry) => Ok(front.push(entry)),
            },
        }
    }
}

/// A table that decodes holds exactly `n` entries, and entry `i` is what
/// decoding at the offset of entry `i` yields.
pub proof fn lemma_table_entries<R: TableEntry>(s: Seq<u8>, at: int, n: nat)
    requires
        spec_table::<R>(s, at, n) is Ok,
    ensures
        spec_table::<R>(s, at, n)->Ok_0.len() == n,
        forall|i: int|
            0 <= i < n ==> R::decoded(s, #[trigger] entry_at::<R>(at, i)) == Ok::<R, DecodeError>(
                spec_table::<R>(s, at, n)->Ok_0[i],
            ),
    decreases n,
{
    if n > 0 {
        lemma_table_entries::<R>(s, at, (n - 1) as nat);
    }
}

/// A table fails exactly where one of its entries fails, and then with the
/// error of the first such entry.
pub proof fn lemma_table_error<R: TableEntry>(s: Seq<u8>, at: int, n: nat)
    ensures
        spec_table::<R>(s, at, n) is Err <==> exists|i: int|
            0 <= i < n && R::decoded(s, #[trigger] entry_at::<R>(at, i)) is Err,
        spec_table::<R>(s, at, n) matches Err(e) ==> exists|i: int|
            {
                &&& 0 <= i < n
                &&& R::decoded(s, #[trigger] entry_at::<R>(at, i)) == Err::<R, DecodeError>(e)
                &&& forall|j: int|
                    0 <= j < i ==> R::decoded(s, #[trigger] entry_at::<R>(at, j)) is Ok
            },
    decreases n,
{
    if n > 0 {
        lemma_table_error::<R>(s, at, (n - 1) as nat);
        let front = spec_table::<R>(s, at, (n - 1) as nat);
        if front is Ok {
            lemma_table_entries::<R>(s, at, (n - 1) as nat);
            if R::decoded(s, entry_at::<R>(at, n - 1)) is Err {
                let i = n - 1;
                assert(0 <= i < n && R::decoded(s, entry_at::<R>(at, i)) is Err);
            }
        } else {
            let i = choose|i: int|
                0 <= i < n - 1 && R::decoded(s, #[trigger] entry_at::<R>(at, i)) is Err;
            assert(0 <= i < n && R::decoded(s, entry_at::<R>(at, i)) is Err);
        }
    }
}

/// True where the entries of `t` lie encoded in `s`, one behind the other from
/// `at` on.
pub open spec fn table_encoded_at<R: TableEntry>(t: Seq<R>, s: Seq<u8>, at: int) -> bool {
    &&& 0 <= at
    &&& forall|i: int|
        0 <= i < t.len() ==> {
            &&& (#[trigger] entry_at::<R>(at, i)) + R::entry_size() <= s.len()
            &&& s.subrange(entry_at::<R>(at, i), entry_at::<R>(at, i) + R::entry_size())
                == t[i].encoded()
        }
}

/// Decoding gives back the table that the bytes were made from, entry by entry
/// and in the same order.
pub proof fn lemma_table_roundtrip<R: TableEntry>(t: Seq<R>, s: Seq<u8>, at: int)
    requires
        table_encoded_at(t, s, at),
    ensures
        spec_table::<R>(s, at, t.len()) == Ok::<Seq<R>, DecodeError>(t),
    decreases t.len(),
{
    if t.len() > 0 {
        let front = t.drop_last();
        assert forall|i: int| 0 <= i < front.len() implies {
            &&& (#[trigger] entry_at::<R>(at, i)) + R::entry_size() <= s.len()
            &&& s.subrange(entry_at::<R>(at, i), entry_at::<R>(at, i) + R::entry_size())
                == front[i].encoded()
        } by {
            assert(front[i] == t[i]);
        }
        lemma_table_roundtrip::<R>(front, s, at);
        let last = t.len() - 1;
        assert(0 <= entry_at::<R>(at, last)) by (nonlinear_arith)
            requires
                0 <= at,
                0 <= last,
                entry_at::<R>(at, last) == at + last * R::entry_size(),
        ;
        R::lemma_roundtrip(t[last], s, entry_at::<R>(at, last));
        assert(front.push(t[last]) =~= t);
    } else {
        assert(t =~= Seq::<R>::empty());
    }
}

/// Decodes `count` entries that lie one behind the other from `offset` on.
///
/// On success the table holds `count` entries in file order and the cursor
/// stands behind the last of them; on failure the cursor has not moved.
pub fn decode_table<R: TableEntry>(io: &mut ByteSource, offset: u64, count: u16) -> (r: Result<
    Vec<R>,
    DecodeError,
>)
    ensures
        final(io)@.bytes == old(io)@.bytes,
        match r {
            Ok(t) => {
                &&& spec_table::<R>(old(io)@.bytes, offset as int, count as nat) == Ok::<
                    Seq<R>,
                    DecodeError,
                >(t@)
                &&& t@.len() == count
                &&& forall|i: int|
                    0 <= i < count ==> R::decoded(
                        old(io)@.bytes,
                        #[trigger] entry_at::<R>(offset as int, i),
                    ) == Ok::<R, DecodeError>(t@[i])
                &&& final(io)@.pos == entry_at::<R>(offset as int, count as int)
            },
            Err(e) => {
                &&& spec_table::<R>(old(io)@.bytes, offset as int, count as nat) == Err::<
                    Seq<R>,
                    DecodeError,
                >(e)
                &&& final(io)@.pos == old(io)@.pos
            },
        },
{
    let mut cur: ByteSource = *io;
    cur.seek(offset);
    let mut table: Vec<R> = Vec::new();
    let mut i: u16 = 0;
    while i < count
        invariant
            i <= count,
            cur@.bytes == old(io)@.bytes,
            io@ == old(io)@,
            cur@.pos == entry_at::<R>(offset as int, i as int),
            spec_table::<R>(cur@.bytes, offset as int, i as nat) == Ok::<Seq<R>, DecodeError>(
                table@,
            ),
            table@.len() == i,
        decreases count - i,
    {
        proof {
            assert(entry_at::<R>(offset as int, i as int) + R::entry_size() == entry_at::<R>(
                offset as int,
                i + 1,
            )) by (nonlinear_arith);
        }
        match R::decode(&mut cur) {
            Ok(entry) => {
                table.push(entry);
            },
            Err(e) => {
                proof {
                    lemma_table_fails_on::<R>(cur@.bytes, offset as int, i as nat, count as nat);
                }
                return Err(e);
            },
        }
        i = i + 1;
    }
    proof {
        lemma_table_entries::<R>(cur@.bytes, offset as int, count as nat);
    }
    *io = cur;
    Ok(table)
}

/// A table whose entry `i` fails after `i` good ones fails with that entry's
/// error, however many entries it was to have.
proof fn lemma_table_fails_on<R: TableEntry>(s: Seq<u8>, at: int, i: nat, n: nat)
    requires
        i < n,
        spec_table::<R>(s, at, i) is Ok,
        R::decoded(s, entry_at::<R>(at, i as int)) is Err,
    ensures
        spec_table::<R>(s, at, n) == Err::<Seq<R>, DecodeError>(
            R::decoded(s, entry_at::<R>(at, i as int))->Err_0,
        ),
    decreases n,
{
    if n > i + 1 {
        lemma_table_fails_on::<R>(s, at, i, (n - 1) as nat);
    }
}

} // verus!
