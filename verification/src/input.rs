//! Byte sources that encoded values are read from, and the zero-padding
//! adapters that let a decode run past the end of finite data.

use vstd::prelude::*;

verus! {

/// An error raised when a byte source cannot serve a read.
#[derive(Clone, Copy, PartialEq, Eq, Structural, Debug)]
pub struct CodecError;

/// The first `n` bytes a source holding `data` yields once it pads with
/// zeros: the real bytes first, then zeros.
pub open spec fn zero_extended(data: Seq<u8>, n: nat) -> Seq<u8> {
    Seq::new(
        n,
        |i: int|
            if i < data.len() {
                data[i]
            } else {
                0u8
            },
    )
}

/// The real bytes left in a source holding `data` after `n` bytes were
/// served.
pub open spec fn consumed(data: Seq<u8>, n: nat) -> Seq<u8> {
    if n >= data.len() {
        Seq::empty()
    } else {
        data.skip(n as int)
    }
}

/// A source of encoded bytes.
///
/// A source is modelled by the real bytes it still holds (`data`), whether it
/// keeps yielding zero bytes once those are gone (`padded`), and whether it
/// reports how many real bytes remain (`len_known`).
pub trait Input: Sized {
    /// The real bytes the source still holds.
    spec fn data(&self) -> Seq<u8>;

    /// Whether the source yields zero bytes forever once the real bytes are
    /// exhausted.
    spec fn padded(&self) -> bool;

    /// Whether the source reports its remaining length.
    spec fn len_known(&self) -> bool;

    /// The real bytes a source holds always number at most `usize::MAX`.
    proof fn lemma_data_len(&self)
        ensures
            self.data().len() <= usize::MAX,
    ;

    /// How many bytes are left, or `None` when the source does not say.
    fn remaining_len(&mut self) -> (r: Result<Option<usize>, CodecError>)
        ensures
            *final(self) == *old(self),
            r matches Ok(o) && o == (if old(self).len_known() {
                Some(old(self).data().len() as usize)
            } else {
                None::<usize>
            }),
    ;

    /// Fill `into` completely from the source.
    ///
    /// A padded source always succeeds; a finite one succeeds exactly when it
    /// still holds enough real bytes, and is left untouched when it does not.
    fn read(&mut self, into: &mut Vec<u8>) -> (r: Result<(), CodecError>)
        ensures
            final(into)@.len() == old(into)@.len(),
            final(self).padded() == old(self).padded(),
            final(self).len_known() == old(self).len_known(),
            r is Ok <==> (old(self).padded() || old(into)@.len() <= old(self).data().len()),
            r is Ok ==> final(into)@ == zero_extended(old(self).data(), old(into)@.len() as nat)
                && final(self).data() == consumed(old(self).data(), old(into)@.len() as nat),
            r is Err ==> *final(self) == *old(self) && final(into)@ == old(into)@,
    ;

    /// Take a single byte from the source.
    fn read_byte(&mut self) -> (r: Result<u8, CodecError>)
        ensures
            final(self).padded() == old(self).padded(),
            final(self).len_known() == old(self).len_known(),
            r is Ok <==> (old(self).padded() || old(self).data().len() >= 1),
            r matches Ok(b) ==> b == (if old(self).data().len() > 0 {
                old(self).data()[0]
            } else {
                0u8
            }) && final(self).data() == consumed(old(self).data(), 1),
            r is Err ==> *final(self) == *old(self),
    {
        let mut buf: Vec<u8> = Vec::new();
        buf.push(0u8);
        match self.read(&mut buf) {
            Ok(()) => Ok(buf[0]),
            Err(e) => Err(e),
        }
    }
}

/// A finite byte source: serves its bytes in order and fails once asked for
/// more than it holds.
pub struct ByteInput {
    bytes: Vec<u8>,
}

impl ByteInput {
    /// A source holding exactly `bytes`.
    pub fn new(bytes: Vec<u8>) -> (r: Self)
        ensures
            r.data() == bytes@,
            !r.padded(),
            r.len_known(),
    {
        ByteInput { bytes }
    }

    /// Whether every byte the source still holds is zero.
    pub fn all_remaining_zero(&self) -> (r: bool)
        ensures
            r <==> (forall|i: int| 0 <= i < self.data().len() ==> self.data()[i] == 0),
    {
        let mut i: usize = 0;
        while i < self.bytes.len()
            invariant
                i <= self.bytes@.len(),
                forall|j: int| 0 <= j < i ==> self.bytes@[j] == 0,
            decreases self.bytes@.len() - i,
        {
            if self.bytes[i] != 0 {
                assert(self.data()[i as int] != 0);
                return false;
            }
            i += 1;
        }
        true
    }
}

impl Input for ByteInput {
    closed spec fn data(&self) -> Seq<u8> {
        self.bytes@
    }

    closed spec fn padded(&self) -> bool {
        false
    }

    closed spec fn len_known(&self) -> bool {
        true
    }

    proof fn lemma_data_len(&self) {
        assert(self.bytes@.len() == self.bytes.len());
    }

    fn remaining_len(&mut self) -> (r: Result<Option<usize>, CodecError>) {
        Ok(Some(self.bytes.len()))
    }

    fn read(&mut self, into: &mut Vec<u8>) -> (r: Result<(), CodecError>) {
        let ghost d0 = self.bytes@;
        let n = into.len();
        if n > self.bytes.len() {
            return Err(CodecError);
        }
        let mut i: usize = 0;
        while i < n
            invariant
                i <= n,
                n <= self.bytes@.len(),
                self.bytes@ == d0,
                into@.len() == n,
                forall|j: int| 0 <= j < i ==> into@[j] == d0[j],
            decreases n - i,
        {
            let b = self.bytes[i];
            into.set(i, b);
            i += 1;
        }
        let mut rest: Vec<u8> = Vec::new();
        let mut k: usize = n;
        while k < self.bytes.len()
            invariant
                n <= k <= self.bytes@.len(),
                self.bytes@ == d0,
                rest@ == d0.subrange(n as int, k as int),
            decreases self.bytes@.len() - k,
        {
            let b = self.bytes[k];
            rest.push(b);
            k += 1;
        }
        self.bytes = rest;
        proof {
            assert(into@ =~= zero_extended(d0, n as nat));
            assert(self.bytes@ =~= consumed(d0, n as nat));
        }
        Ok(())
    }
}

/// A source that serves a finite byte string and then an endless run of
/// zeros; it never fails and never reports a remaining length.
pub struct TrailingZeroInput {
    bytes: Vec<u8>,
}

impl TrailingZeroInput {
    /// A padded source whose real bytes are exactly `bytes`.
    pub fn new(bytes: Vec<u8>) -> (r: Self)
        ensures
            r.data() == bytes@,
            r.padded(),
            !r.len_known(),
    {
        TrailingZeroInput { bytes }
    }
}

impl Input for TrailingZeroInput {
    closed spec fn data(&self) -> Seq<u8> {
        self.bytes@
    }

    closed spec fn padded(&self) -> bool {
        true
    }

    closed spec fn len_known(&self) -> bool {
        false
    }

    proof fn lemma_data_len(&self) {
        assert(self.bytes@.len() == self.bytes.len());
    }

    fn remaining_len(&mut self) -> (r: Result<Option<usize>, CodecError>) {
        Ok(None)
    }

    fn read(&mut self, into: &mut Vec<u8>) -> (r: Result<(), CodecError>) {
        let ghost d0 = self.bytes@;
        let n = into.len();
        let avail = self.bytes.len();
        let take = if n < avail {
            n
        } else {
            avail
        };
        let mut i: usize = 0;
        while i < take
            invariant
                i <= take,
                take <= n,
                take <= self.bytes@.len(),
                self.bytes@ == d0,
                into@.len() == n,
                forall|j: int| 0 <= j < i ==> into@[j] == d0[j],
            decreases take - i,
        {
            let b = self.bytes[i];
            into.set(i, b);
            i += 1;
        }
        let mut k: usize = take;
        while k < n
            invariant
                take <= k <= n,
                take == n || take == d0.len(),
                self.bytes@ == d0,
                into@.len() == n,
                forall|j: int| 0 <= j < take ==> into@[j] == d0[j],
                forall|j: int| take <= j < k ==> into@[j] == 0,
            decreases n - k,
        {
            into.set(k, 0u8);
            k += 1;
        }
        let mut rest: Vec<u8> = Vec::new();
        let mut m: usize = take;
        while m < self.bytes.len()
            invariant
                take <= m <= self.bytes@.len(),
                self.bytes@ == d0,
                rest@ == d0.subrange(take as int, m as int),
            decreases self.bytes@.len() - m,
        {
            let b = self.bytes[m];
            rest.push(b);
            m += 1;
        }
        self.bytes = rest;
        proof {
            assert(into@ =~= zero_extended(d0, n as nat));
            assert(self.bytes@ =~= consumed(d0, n as nat));
        }
        Ok(())
    }
}

/// An adapter that forwards the real bytes of any other source and then
/// zero-fills the remainder of every read once that source is exhausted.
pub struct AppendZerosInput<T> {
    inner: T,
}

impl<T: Input> AppendZerosInput<T> {
    /// Wrap `input` so reads past its end yield zeros.
    pub fn new(input: T) -> (r: Self)
        ensures
            r.data() == input.data(),
            r.padded(),
            !r.len_known(),
    {
        AppendZerosInput { inner: input }
    }
}

impl<T: Input> Input for AppendZerosInput<T> {
    closed spec fn data(&self) -> Seq<u8> {
        self.inner.data()
    }

    closed spec fn padded(&self) -> bool {
        true
    }

    closed spec fn len_known(&self) -> bool {
        false
    }

    proof fn lemma_data_len(&self) {
        self.inner.lemma_data_len();
    }

    fn remaining_len(&mut self) -> (r: Result<Option<usize>, CodecError>) {
        Ok(None)
    }

    fn read(&mut self, into: &mut Vec<u8>) -> (r: Result<(), CodecError>) {
        let ghost d0 = self.inner.data();
        let ghost p0 = self.inner.padded();
        let ghost l0 = self.inner.len_known();
        proof {
            self.inner.lemma_data_len();
        }
        let n = into.len();
        let remaining = match self.inner.remaining_len() {
            Ok(rem) => rem,
            Err(e) => {
                return Err(e);
            },
        };
        let completed: usize = if let Some(rem_n) = remaining {
            // The wrapped source says how much it holds: take at most that.
            let readable = if n < rem_n {
                n
            } else {
                rem_n
            };
            let mut buf: Vec<u8> = Vec::new();
            let mut z: usize = 0;
            while z < readable
                invariant
                    z <= readable,
                    buf@.len() == z,
                decreases readable - z,
            {
                buf.push(0u8);
                z += 1;
            }
            match self.inner.read(&mut buf) {
                Ok(()) => {},
                Err(e) => {
                    return Err(e);
                },
            }
            let mut i: usize = 0;
            while i < readable
                invariant
                    i <= readable,
                    readable <= n,
                    readable <= d0.len(),
                    buf@ == zero_extended(d0, readable as nat),
                    into@.len() == n,
                    self.inner.data() == consumed(d0, readable as nat),
                    self.inner.padded() == p0,
                    self.inner.len_known() == l0,
                    forall|j: int| 0 <= j < i ==> into@[j] == d0[j],
                decreases readable - i,
            {
                let b = buf[i];
                into.set(i, b);
                i += 1;
            }
            readable
        } else {
            // No length reported: pull byte by byte while the source yields.
            let mut i: usize = 0;
            while i < n
                invariant_except_break
                    i <= n,
                    into@.len() == n,
                    self.inner.data() == consumed(d0, i as nat),
                    self.inner.padded() == p0,
                    self.inner.len_known() == l0,
                    forall|j: int| 0 <= j < i ==> into@[j] == zero_extended(d0, n as nat)[j],
                ensures
                    i <= n,
                    into@.len() == n,
                    self.inner.data() == consumed(d0, i as nat),
                    self.inner.padded() == p0,
                    self.inner.len_known() == l0,
                    forall|j: int| 0 <= j < i ==> into@[j] == zero_extended(d0, n as nat)[j],
                    i < n ==> !p0 && consumed(d0, i as nat).len() == 0,
                decreases n - i,
            {
                match self.inner.read_byte() {
                    Ok(b) => {
                        proof {
                            if i < d0.len() {
                                assert(consumed(d0, i as nat)[0] == d0[i as int]);
                            }
                            assert(consumed(consumed(d0, i as nat), 1) =~= consumed(
                                d0,
                                (i + 1) as nat,
                            ));
                        }
                        into.set(i, b);
                        i += 1;
                    },
                    Err(_) => {
                        break;
                    },
                }
            }
            i
        };
        let mut k: usize = completed;
        while k < n
            invariant
                completed <= k <= n,
                into@.len() == n,
                completed >= d0.len() || completed == n,
                self.inner.data() == consumed(d0, completed as nat),
                self.inner.padded() == p0,
                self.inner.len_known() == l0,
                forall|j: int| 0 <= j < completed ==> into@[j] == zero_extended(d0, n as nat)[j],
                forall|j: int| completed <= j < k ==> into@[j] == 0,
            decreases n - k,
        {
            into.set(k, 0u8);
            k += 1;
        }
        proof {
            assert(forall|j: int|
                completed <= j < n ==> #[trigger] into@[j] == zero_extended(d0, n as nat)[j]);
            assert(into@ =~= zero_extended(d0, n as nat));
            assert(self.data() =~= consumed(d0, n as nat));
        }
        Ok(())
    }
}

} // verus!
