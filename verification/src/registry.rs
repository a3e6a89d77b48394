//! The transport registry and the block-transfer bridge.
//!
//! The registry owns one open bus connection per logical device identifier.
//! The bridge operations resolve an identifier through the registry and
//! collapse every failure into the vendor calling convention's binary
//! pass/fail code: an unknown identifier or a failed bus transaction yields
//! a non-zero code, never a panic.  A block read copies at most
//! `min(requested length, returned length)` bytes into the caller-supplied
//! buffer and never writes past its bound; a short read is silently
//! truncated, mirroring the wire contract.

use vstd::math::min;
use vstd::pervasive::VecAdditionalExecFns;
use vstd::prelude::*;

verus! {

/// A register-addressed bus connection, as the bridge consumes it.
///
/// Nothing is assumed of an implementation: the bridge's contracts hold for
/// every outcome a connection can produce.
pub trait BusHandle {
    /// Issue a block write of `data` starting at `reg_addr`; report success.
    fn block_write(&mut self, reg_addr: u8, data: &[u8]) -> bool;

    /// Issue a block read of `len` bytes starting at `reg_addr`.  The
    /// connection may hand back fewer or more bytes than requested, or fail.
    fn block_read(&mut self, reg_addr: u8, len: u8) -> Option<Vec<u8>>;
}

/// How many bytes a bridge read copies: the requested length, truncated to
/// what the bus returned and to the caller's buffer bound.
pub open spec fn spec_copy_len(dest_len: nat, src_len: nat, len: nat) -> nat {
    min(min(len as int, src_len as int), dest_len as int) as nat
}

/// The caller-supplied buffer after a bridge read that obtained `src`: the
/// copied prefix comes from `src`, everything past it is untouched, and the
/// buffer keeps its length.
pub open spec fn spec_fill_prefix(dest: Seq<u8>, src: Seq<u8>, len: nat) -> Seq<u8> {
    Seq::new(
        dest.len(),
        |i: int|
            if i < spec_copy_len(dest.len(), src.len(), len) {
                src[i]
            } else {
                dest[i]
            },
    )
}

/// Law: a bridge read stays inside both bounds.  The copied prefix is
/// `min(requested length, returned length)` long, further capped by the
/// buffer itself; every byte past it is untouched, and the buffer never
/// grows — nothing is ever written past the caller-supplied bound.
pub proof fn lemma_fill_prefix_bounded(dest: Seq<u8>, src: Seq<u8>, len: nat)
    ensures
        spec_copy_len(dest.len(), src.len(), len) <= len,
        spec_copy_len(dest.len(), src.len(), len) <= src.len(),
        spec_copy_len(dest.len(), src.len(), len) <= dest.len(),
        spec_fill_prefix(dest, src, len).len() == dest.len(),
        forall|i: int|
            0 <= i < spec_copy_len(dest.len(), src.len(), len) ==> spec_fill_prefix(
                dest,
                src,
                len,
            )[i] == src[i],
        forall|i: int|
            spec_copy_len(dest.len(), src.len(), len) <= i < dest.len() ==> spec_fill_prefix(
                dest,
                src,
                len,
            )[i] == dest[i],
{
}

/// Copy the first `min(len, data.len(), buf.len())` bytes of `data` into
/// the front of `buf`, leaving the rest of `buf` and its length unchanged.
pub fn fill_prefix(buf: &mut Vec<u8>, data: &[u8], len: usize)
    ensures
        final(buf)@ == spec_fill_prefix(old(buf)@, data@, len as nat),
        final(buf)@.len() == old(buf)@.len(),
{
    let mut n: usize = if len < data.len() {
        len
    } else {
        data.len()
    };
    if buf.len() < n {
        n = buf.len();
    }
    assert(n == spec_copy_len(old(buf)@.len(), data@.len(), len as nat));
    let mut i: usize = 0;
    while i < n
        invariant
            i <= n,
            n == spec_copy_len(old(buf)@.len(), data@.len(), len as nat),
            n <= data@.len(),
            buf@.len() == old(buf)@.len(),
            n <= buf@.len(),
            forall|j: int| 0 <= j < i ==> buf@[j] == data@[j],
            forall|j: int| i <= j < buf@.len() ==> buf@[j] == old(buf)@[j],
        decreases n - i,
    {
        let b: u8 = data[i];
        buf.set(i, b);
        i = i + 1;
    }
    assert(buf@ =~= spec_fill_prefix(old(buf)@, data@, len as nat));
}

/// The process-wide table from logical device identifier to open bus
/// connection.  It owns the connections; a session registers its device
/// once and the bridge resolves every transaction through it.  Not safe to
/// share across threads: it is meant to live on the acquisition thread.
pub struct TransportRegistry<B> {
    entries: Vec<(u8, B)>,
}

impl<B: BusHandle> TransportRegistry<B> {
    /// Well-formed: each identifier occurs at most once.
    pub closed spec fn wf(self) -> bool {
        forall|i: int, j: int|
            0 <= i < j < self.entries@.len() ==> (#[trigger] self.entries@[i]).0 != (
            #[trigger] self.entries@[j]).0
    }

    /// Whether a connection is registered under `id`.
    pub closed spec fn spec_contains(self, id: u8) -> bool {
        exists|i: int| 0 <= i < self.entries@.len() && (#[trigger] self.entries@[i]).0 == id
    }

    /// The connection registered under `id` (arbitrary if there is none).
    pub closed spec fn spec_handle(self, id: u8) -> B {
        self.entries@[choose|i: int|
            0 <= i < self.entries@.len() && (#[trigger] self.entries@[i]).0 == id].1
    }

    /// With unique identifiers, the entry at a matching index is the
    /// registered connection.
    proof fn lemma_handle_at(self, id: u8, i: int)
        requires
            self.wf(),
            0 <= i < self.entries@.len(),
            self.entries@[i].0 == id,
        ensures
            self.spec_contains(id),
            self.spec_handle(id) == self.entries@[i].1,
    {
        let k = choose|k: int|
            0 <= k < self.entries@.len() && (#[trigger] self.entries@[k]).0 == id;
        if k != i {
            if k < i {
                assert((self.entries@[k]).0 != (self.entries@[i]).0);
            } else {
                assert((self.entries@[i]).0 != (self.entries@[k]).0);
            }
        }
    }

    /// An empty registry: no identifier resolves.
    pub fn new() -> (r: TransportRegistry<B>)
        ensures
            r.wf(),
            forall|id: u8| !r.spec_contains(id),
    {
        TransportRegistry { entries: Vec::new() }
    }

    /// The index of the entry for `id`, if any.
    fn position_of(&self, id: u8) -> (r: Option<usize>)
        ensures
            match r {
                Some(i) => i < self.entries@.len() && self.entries@[i as int].0 == id,
                None => !self.spec_contains(id),
            },
    {
        let mut i: usize = 0;
        while i < self.entries.len()
            invariant
                i <= self.entries@.len(),
                forall|j: int| 0 <= j < i ==> (#[trigger] self.entries@[j]).0 != id,
            decreases self.entries@.len() - i,
        {
            if self.entries[i].0 == id {
                return Some(i);
            }
            i = i + 1;
        }
        None
    }

    /// Whether a connection is registered under `id`.
    pub fn contains(&self, id: u8) -> (r: bool)
        ensures
            r == self.spec_contains(id),
    {
        self.position_of(id).is_some()
    }

    /// Insert the connection for `id`, or replace the one already
    /// registered; every other identifier is untouched.
    pub fn register(&mut self, id: u8, handle: B)
        requires
            old(self).wf(),
        ensures
            final(self).wf(),
            final(self).spec_contains(id),
            final(self).spec_handle(id) == handle,
            forall|other: u8|
                other != id ==> final(self).spec_contains(other) == old(self).spec_contains(other),
            forall|other: u8|
                other != id && old(self).spec_contains(other) ==> final(self).spec_handle(other)
                    == old(self).spec_handle(other),
    {
        let ghost prev = *self;
        match self.position_of(id) {
            Some(i) => {
                self.entries.set(i, (id, handle));
                proof {
                    assert forall|p: int, q: int|
                        0 <= p < q < self.entries@.len() implies (#[trigger] self.entries@[p]).0
                        != (#[trigger] self.entries@[q]).0 by {
                        assert((prev.entries@[p]).0 != (prev.entries@[q]).0);
                    }
                    self.lemma_handle_at(id, i as int);
                    assert forall|other: u8| other != id implies self.spec_contains(other)
                        == prev.spec_contains(other) by {
                        if prev.spec_contains(other) {
                            let j = choose|j: int|
                                0 <= j < prev.entries@.len() && (#[trigger] prev.entries@[j]).0
                                    == other;
                            assert((self.entries@[j]).0 == other);
                        }
                        if self.spec_contains(other) {
                            let j = choose|j: int|
                                0 <= j < self.entries@.len() && (#[trigger] self.entries@[j]).0
                                    == other;
                            assert((prev.entries@[j]).0 == other);
                        }
                    }
                    assert forall|other: u8|
                        other != id && prev.spec_contains(other) implies self.spec_handle(other)
                        == prev.spec_handle(other) by {
                        let j = choose|j: int|
                            0 <= j < prev.entries@.len() && (#[trigger] prev.entries@[j]).0
                                == other;
                        prev.lemma_handle_at(other, j);
                        self.lemma_handle_at(other, j);
                    }
                }
            },
            None => {
                self.entries.push((id, handle));
                proof {
                    let last = prev.entries@.len() as int;
                    assert forall|p: int, q: int|
                        0 <= p < q < self.entries@.len() implies (#[trigger] self.entries@[p]).0
                        != (#[trigger] self.entries@[q]).0 by {
                        if q < last {
                            assert((prev.entries@[p]).0 != (prev.entries@[q]).0);
                        } else {
                            assert((self.entries@[q]).0 == id);
                            assert((prev.entries@[p]).0 != id);
                        }
                    }
                    self.lemma_handle_at(id, last);
                    assert forall|other: u8| other != id implies self.spec_contains(other)
                        == prev.spec_contains(other) by {
                        if prev.spec_contains(other) {
                            let j = choose|j: int|
                                0 <= j < prev.entries@.len() && (#[trigger] prev.entries@[j]).0
                                    == other;
                            assert((self.entries@[j]).0 == other);
                        }
                        if self.spec_contains(other) {
                            let j = choose|j: int|
                                0 <= j < self.entries@.len() && (#[trigger] self.entries@[j]).0
                                    == other;
                            assert(j != last);
                            assert((prev.entries@[j]).0 == other);
                        }
                    }
                    assert forall|other: u8|
                        other != id && prev.spec_contains(other) implies self.spec_handle(other)
                        == prev.spec_handle(other) by {
                        let j = choose|j: int|
                            0 <= j < prev.entries@.len() && (#[trigger] prev.entries@[j]).0
                                == other;
                        prev.lemma_handle_at(other, j);
                        self.lemma_handle_at(other, j);
                    }
                }
            },
        }
    }

    /// Bridge block write: resolve `dev_id` and write `data` starting at
    /// `reg_addr`.  Returns zero on success; an unknown identifier or a
    /// failed bus transaction yields a non-zero code.
    pub fn write(&mut self, dev_id: u8, reg_addr: u8, data: &[u8]) -> (r: i8)
        requires
            old(self).wf(),
        ensures
            final(self).wf(),
            !old(self).spec_contains(dev_id) ==> r == 1,
            r == 0 ==> old(self).spec_contains(dev_id),
            forall|id: u8| final(self).spec_contains(id) == old(self).spec_contains(id),
    {
        let ghost prev = *self;
        match self.position_of(dev_id) {
            None => 1,
            Some(i) => {
                let (id, mut handle) = self.entries.remove(i);
                let ok = handle.block_write(reg_addr, data);
                self.entries.insert(i, (id, handle));
                proof {
                    self.lemma_update_preserves(prev, i as int);
                }
                if ok {
                    0
                } else {
                    1
                }
            },
        }
    }

    /// Bridge block read: resolve `dev_id`, request `len` bytes starting at
    /// `reg_addr`, and copy at most `min(len, returned length)` bytes into
    /// the front of `buf`, which keeps its length.  Returns zero on
    /// success; an unknown identifier or a failed bus transaction yields a
    /// non-zero code and leaves `buf` unchanged.
    pub fn read(&mut self, dev_id: u8, reg_addr: u8, buf: &mut Vec<u8>, len: u16) -> (r: i8)
        requires
            old(self).wf(),
        ensures
            final(self).wf(),
            final(buf)@.len() == old(buf)@.len(),
            !old(self).spec_contains(dev_id) ==> r == 1,
            r == 0 ==> old(self).spec_contains(dev_id),
            r != 0 ==> final(buf)@ == old(buf)@,
            r == 0 ==> exists|returned: Seq<u8>|
                final(buf)@ == spec_fill_prefix(old(buf)@, returned, len as nat),
            forall|id: u8| final(self).spec_contains(id) == old(self).spec_contains(id),
    {
        let ghost prev = *self;
        match self.position_of(dev_id) {
            None => 1,
            Some(i) => {
                let (id, mut handle) = self.entries.remove(i);
                let got = handle.block_read(reg_addr, #[verifier::truncate] (len as u8));
                self.entries.insert(i, (id, handle));
                proof {
                    self.lemma_update_preserves(prev, i as int);
                }
                match got {
                    Some(data) => {
                        fill_prefix(buf, data.as_slice(), len as usize);
                        assert(buf@ == spec_fill_prefix(old(buf)@, data@, len as nat));
                        0
                    },
                    None => 1,
                }
            },
        }
    }

    /// Removing an entry and re-inserting one with the same identifier at
    /// the same index keeps the registry well-formed and resolves the same
    /// identifiers.
    proof fn lemma_update_preserves(self, prev: Self, i: int)
        requires
            prev.wf(),
            0 <= i < prev.entries@.len(),
            self.entries@.len() == prev.entries@.len(),
            forall|j: int|
                0 <= j < self.entries@.len() ==> (#[trigger] self.entries@[j]).0 == (
                prev.entries@[j]).0,
        ensures
            self.wf(),
            forall|id: u8| self.spec_contains(id) == prev.spec_contains(id),
    {
        assert forall|p: int, q: int|
            0 <= p < q < self.entries@.len() implies (#[trigger] self.entries@[p]).0 != (
        #[trigger] self.entries@[q]).0 by {
            assert((prev.entries@[p]).0 != (prev.entries@[q]).0);
        }
        assert forall|id: u8| self.spec_contains(id) == prev.spec_contains(id) by {
            if prev.spec_contains(id) {
                let j = choose|j: int|
                    0 <= j < prev.entries@.len() && (#[trigger] prev.entries@[j]).0 == id;
                assert((self.entries@[j]).0 == id);
            }
            if self.spec_contains(id) {
                let j = choose|j: int|
                    0 <= j < self.entries@.len() && (#[trigger] self.entries@[j]).0 == id;
                assert((prev.entries@[j]).0 == id);
            }
        }
    }
}

} // verus!
