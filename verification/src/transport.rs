//! Byte-stream storage access. A [`Transport`] supplies whole-object read and
//! write access keyed by a path-like byte string; concrete backends (local
//! filesystem, object storage) are supplied by the embedding application.
//! [`MemoryTransport`] is an in-memory backend, verified against the same
//! contract. [`SidecarWriter`] forwards every byte written to a wrapped sink
//! while accumulating a copy, so a whole output stream can be signed without
//! re-reading it from storage.

use vstd::prelude::*;

verus! {

/// A storage backend's read or write failure.
#[derive(Clone, Copy, Debug, PartialEq, Eq, Structural)]
pub struct TransportError;

/// Whole-object storage, keyed by path-like byte strings.
///
/// `get` may fail even on a stored key (backends are remote and fallible),
/// but whatever it returns is exactly the stored object, and it never alters
/// the store. `put` either stores exactly the given bytes or fails.
pub trait Transport: Sized {
    /// The stored objects, by key.
    spec fn objects(&self) -> Map<Seq<u8>, Seq<u8>>;

    fn get(&mut self, key: &Vec<u8>) -> (r: Result<Vec<u8>, TransportError>)
        ensures
            final(self).objects() == old(self).objects(),
            r matches Ok(d) ==> old(self).objects().contains_key(key@) && d@ == old(
                self,
            ).objects()[key@],
    ;

    fn put(&mut self, key: &Vec<u8>, data: &Vec<u8>) -> (r: Result<(), TransportError>)
        ensures
            r matches Ok(_) ==> final(self).objects() == old(self).objects().insert(key@, data@),
            r matches Err(_) ==> final(self).objects() == old(self).objects(),
    ;
}

pub fn bytes_eq(a: &Vec<u8>, b: &Vec<u8>) -> (r: bool)
    ensures
        r == (a@ == b@),
{
    if a.len() != b.len() {
        return false;
    }
    let n = a.len();
    let mut i: usize = 0;
    while i < n
        invariant
            i <= n,
            n == a@.len() == b@.len(),
            forall|k: int| 0 <= k < i ==> a@[k] == b@[k],
        decreases n - i,
    {
        if a[i] != b[i] {
            return false;
        }
        i = i + 1;
    }
    assert(a@ =~= b@);
    true
}

/// An in-memory store: a log of `put` entries, the newest one per key
/// winning.
pub struct MemoryTransport {
    entries: Vec<(Vec<u8>, Vec<u8>)>,
}

impl MemoryTransport {
    pub closed spec fn map_of(entries: Seq<(Vec<u8>, Vec<u8>)>, n: int) -> Map<Seq<u8>, Seq<u8>>
        decreases n,
    {
        if n <= 0 {
            Map::empty()
        } else {
            Self::map_of(entries, n - 1).insert(entries[n - 1].0@, entries[n - 1].1@)
        }
    }

    pub fn new() -> (r: MemoryTransport)
        ensures
            r.objects() == Map::<Seq<u8>, Seq<u8>>::empty(),
    {
        MemoryTransport { entries: Vec::new() }
    }

    /// The newest entry for a key is the one the entry map holds.
    proof fn lemma_map_of_last_match(entries: Seq<(Vec<u8>, Vec<u8>)>, n: int, i: int)
        requires
            0 <= i < n <= entries.len(),
            forall|j: int| i < j < n ==> entries[j].0@ != entries[i].0@,
        ensures
            Self::map_of(entries, n).contains_key(entries[i].0@),
            Self::map_of(entries, n)[entries[i].0@] == entries[i].1@,
        decreases n,
    {
        if i < n - 1 {
            Self::lemma_map_of_last_match(entries, n - 1, i);
        }
    }

    /// A key no entry carries is absent from the entry map.
    proof fn lemma_map_of_absent(entries: Seq<(Vec<u8>, Vec<u8>)>, n: int, k: Seq<u8>)
        requires
            0 <= n <= entries.len(),
            forall|j: int| 0 <= j < n ==> entries[j].0@ != k,
        ensures
            !Self::map_of(entries, n).contains_key(k),
        decreases n,
    {
        if n > 0 {
            Self::lemma_map_of_absent(entries, n - 1, k);
        }
    }

    /// Two entry logs that agree on their first `n` entries give the same map
    /// over those entries.
    proof fn lemma_map_of_prefix_eq(
        entries1: Seq<(Vec<u8>, Vec<u8>)>,
        entries2: Seq<(Vec<u8>, Vec<u8>)>,
        n: int,
    )
        requires
            0 <= n <= entries1.len(),
            n <= entries2.len(),
            forall|i: int|
                0 <= i < n ==> entries1[i].0@ == entries2[i].0@ && entries1[i].1@
                    == entries2[i].1@,
        ensures
            Self::map_of(entries1, n) == Self::map_of(entries2, n),
        decreases n,
    {
        if n > 0 {
            Self::lemma_map_of_prefix_eq(entries1, entries2, n - 1);
        }
    }
}

impl Transport for MemoryTransport {
    closed spec fn objects(&self) -> Map<Seq<u8>, Seq<u8>> {
        Self::map_of(self.entries@, self.entries@.len() as int)
    }

    fn get(&mut self, key: &Vec<u8>) -> (r: Result<Vec<u8>, TransportError>)
        ensures
            final(self).objects() == old(self).objects(),
            r matches Ok(d) ==> old(self).objects().contains_key(key@) && d@ == old(
                self,
            ).objects()[key@],
            old(self).objects().contains_key(key@) ==> r matches Ok(_),
    {
        let n = self.entries.len();
        let mut i: usize = n;
        while i > 0
            invariant
                i <= n,
                n == self.entries@.len(),
                self == old(self),
                forall|j: int| i <= j < n ==> self.entries@[j].0@ != key@,
            decreases i,
        {
            i = i - 1;
            if bytes_eq(&self.entries[i].0, key) {
                let mut out: Vec<u8> = Vec::new();
                crate::codec::push_bytes(&mut out, self.entries[i].1.as_slice());
                proof {
                    Self::lemma_map_of_last_match(self.entries@, n as int, i as int);
                    assert(out@ =~= self.entries@[i as int].1@);
                }
                return Ok(out);
            }
        }
        proof {
            Self::lemma_map_of_absent(self.entries@, n as int, key@);
        }
        Err(TransportError)
    }

    fn put(&mut self, key: &Vec<u8>, data: &Vec<u8>) -> (r: Result<(), TransportError>)
        ensures
            r matches Ok(_) ==> final(self).objects() == old(self).objects().insert(key@, data@),
            r matches Err(_) ==> final(self).objects() == old(self).objects(),
            r matches Ok(_),
    {
        let n = self.entries.len();
        let mut copy: Vec<u8> = Vec::new();
        crate::codec::push_bytes(&mut copy, data.as_slice());
        assert(copy@ =~= data@);
        let mut key_copy: Vec<u8> = Vec::new();
        crate::codec::push_bytes(&mut key_copy, key.as_slice());
        assert(key_copy@ =~= key@);
        self.entries.push((key_copy, copy));
        proof {
            Self::lemma_map_of_prefix_eq(self.entries@, old(self).entries@, n as int);
        }
        Ok(())
    }
}

/// An opaque byte sink: an output stream a transport backend hands out.
pub trait WriteStream: Sized {
    /// Everything written to this stream since its creation.
    spec fn written(&self) -> Seq<u8>;

    /// Whether this sink can refuse a write. An in-memory sink cannot; a
    /// remote one can.
    spec fn infallible(&self) -> bool;

    fn write_all(&mut self, buf: &[u8]) -> (r: Result<(), TransportError>)
        ensures
            r matches Ok(_) ==> final(self).written() == old(self).written() + buf@,
            old(self).infallible() ==> r matches Ok(_),
    ;
}

/// A sink that materializes the stream in memory.
pub struct VecSink {
    pub buf: Vec<u8>,
}

impl VecSink {
    pub fn new() -> (r: VecSink)
        ensures
            r.written() == Seq::<u8>::empty(),
    {
        VecSink { buf: Vec::new() }
    }
}

impl WriteStream for VecSink {
    open spec fn written(&self) -> Seq<u8> {
        self.buf@
    }

    open spec fn infallible(&self) -> bool {
        true
    }

    fn write_all(&mut self, buf: &[u8]) -> (r: Result<(), TransportError>)
        ensures
            r matches Ok(_) ==> final(self).written() == old(self).written() + buf@,
            old(self).infallible() ==> r matches Ok(_),
    {
        crate::codec::push_bytes(&mut self.buf, buf);
        Ok(())
    }
}

/// Wraps an output stream so that every byte written is simultaneously
/// forwarded to the destination and accumulated in `sidecar`, to be signed
/// later without re-reading from storage.
pub struct SidecarWriter<W: WriteStream> {
    pub inner: W,
    pub sidecar: Vec<u8>,
}

impl<W: WriteStream> SidecarWriter<W> {
    pub fn new(inner: W) -> (r: SidecarWriter<W>)
        ensures
            r.inner == inner,
            r.sidecar@ == Seq::<u8>::empty(),
    {
        SidecarWriter { inner, sidecar: Vec::new() }
    }

    /// Forwards `buf` unchanged to the wrapped stream and appends a copy to
    /// the sidecar buffer.
    pub fn write_all(&mut self, buf: &[u8]) -> (r: Result<(), TransportError>)
        ensures
            r matches Ok(_) ==> final(self).inner.written() == old(self).inner.written() + buf@
                && final(self).sidecar@ == old(self).sidecar@ + buf@,
            r matches Err(_) ==> final(self).sidecar@ == old(self).sidecar@,
            old(self).inner.infallible() ==> r matches Ok(_),
    {
        match self.inner.write_all(buf) {
            Ok(()) => {
                crate::codec::push_bytes(&mut self.sidecar, buf);
                Ok(())
            },
            Err(e) => Err(e),
        }
    }
}

} // verus!
