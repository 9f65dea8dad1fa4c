//! Key-invalidated memoizing caches for GPU objects.
//!
//! A cached object is recreated only when the key it was built from
//! changes; otherwise the stored object is returned untouched. Equality on
//! the key is the sole invalidation trigger: there is no time-based or LRU
//! eviction. The object is constructed by a factory the caller supplies at
//! each access, so the cache itself never names a GPU API.

use vstd::prelude::*;
use vstd::std_specs::cmp::PartialEqSpec;

use crate::structs::WgpuStruct;

verus! {

/// Object of type `V` cached using a key of type `K`.
///
/// For example, `V` may be a texture handle and `K` its pixel extent, for
/// a texture that is automatically resized as needed. With a
/// shared-ownership handle (such as an `Arc`) as `V`, a replaced
/// generation stays valid for holders still using it: the cache only
/// drops its own reference.
pub struct Cached<K, V> {
    /// The key the object was built from, and the object, if any.
    pub cached: Option<(K, V)>,
    /// How many objects have been constructed so far. A cache hit leaves
    /// this unchanged: that is the no-recreation guarantee.
    pub generation: Ghost<nat>,
}

impl<K, V> Cached<K, V> {
    /// The key most recently used to create the object, if any.
    pub open spec fn spec_key(self) -> Option<K> {
        match self.cached {
            Some((k, _)) => Some(k),
            None => None,
        }
    }

    /// The stored object.
    pub open spec fn spec_obj(self) -> V
        recommends
            self.cached is Some,
    {
        match self.cached {
            Some((_, v)) => v,
            None => arbitrary(),
        }
    }

    /// Constructs an empty cache; the first access builds the object.
    pub fn new() -> (r: Self)
        ensures
            r.cached is None,
            r.generation@ == 0,
    {
        Cached { cached: None, generation: Ghost(0) }
    }
}

impl<K: PartialEq + Copy, V> Cached<K, V> {
    /// Whether a request for `key` is served from the stored pair.
    pub open spec fn spec_hit(self, key: K) -> bool {
        match self.cached {
            Some((k, _)) => k.eq_spec(&key),
            None => false,
        }
    }

    /// Returns the cached object, invalidating and recreating it through
    /// `f` if `key` differs from the key that was used previously.
    pub fn get<F: FnOnce(K) -> V>(&mut self, key: K, f: F) -> (obj: &V)
        requires
            K::obeys_eq_spec(),
            call_requires(f, (key,)),
        ensures
            old(self).spec_hit(key) ==> {
                &&& *final(self) == *old(self)
                &&& *obj == old(self).spec_obj()
            },
            !old(self).spec_hit(key) ==> {
                &&& final(self).cached == Some((key, *obj))
                &&& call_ensures(f, (key,), *obj)
                &&& final(self).generation@ == old(self).generation@ + 1
            },
            final(self).cached is Some,
            *obj == final(self).spec_obj(),
    {
        let hit: bool = match &self.cached {
            Some((old_key, _)) => *old_key == key,
            None => false,
        };
        if !hit {
            let obj = f(key);
            self.cached = Some((key, obj));
            self.generation = Ghost(self.generation@ + 1);
        }
        match &self.cached {
            Some((_, obj)) => obj,
            None => unreached(),
        }
    }

    /// The key that was most recently used to create the object, or `None`
    /// if the object hasn't been created yet.
    pub fn key(&self) -> (r: Option<&K>)
        ensures
            match (r, self.cached) {
                (Some(k), Some((stored, _))) => *k == stored,
                (None, None) => true,
                _ => false,
            },
    {
        match &self.cached {
            Some((k, _)) => Some(k),
            None => None,
        }
    }
}

impl<V> Cached<usize, V> {
    /// Returns the cached object, invalidating and recreating it only if
    /// `key` is greater than the key that was used previously: a stored
    /// key at least as large already satisfies the request.
    pub fn get_at_least<F: FnOnce(usize) -> V>(&mut self, key: usize, f: F) -> (obj: &V)
        requires
            forall|k: usize| key <= k ==> call_requires(f, (k,)),
        ensures
            (old(self).cached matches Some((k, _)) && k >= key) ==> {
                &&& *final(self) == *old(self)
                &&& *obj == old(self).spec_obj()
            },
            !(old(self).cached matches Some((k, _)) && k >= key) ==> {
                &&& final(self).cached == Some((key, *obj))
                &&& call_ensures(f, (key,), *obj)
                &&& final(self).generation@ == old(self).generation@ + 1
            },
            final(self).cached is Some,
            *obj == final(self).spec_obj(),
    {
        let mut effective: usize = key;
        match &self.cached {
            Some((old_key, _)) => {
                if *old_key > effective {
                    effective = *old_key;
                }
            },
            None => {},
        }
        self.get(effective, f)
    }
}

/// One pending upload into a GPU buffer: a byte image and the offset it is
/// written at.
#[derive(Debug, Clone)]
pub struct BufferWrite {
    /// Byte offset of the write within the buffer.
    pub offset: u64,
    /// The bytes written there.
    pub bytes: Vec<u8>,
}

/// The concatenated byte images of a sequence of records.
pub open spec fn concat_wgpu_bytes<T: WgpuStruct>(s: Seq<T>) -> Seq<u8>
    decreases s.len(),
{
    if s.len() == 0 {
        Seq::empty()
    } else {
        concat_wgpu_bytes(s.drop_last()) + s.last().spec_bytes()
    }
}

/// The concatenated byte image of `n` records is `n` times one record's
/// byte length: a buffer of `n * stride` bytes always holds it.
pub proof fn lemma_concat_wgpu_bytes_len<T: WgpuStruct>(s: Seq<T>)
    ensures
        concat_wgpu_bytes(s).len() == s.len() * T::spec_byte_len(),
    decreases s.len(),
{
    if s.len() == 0 {
    } else {
        lemma_concat_wgpu_bytes_len(s.drop_last());
        let last = s.last();
        last.bytes_len_facts();
        assert((s.len() - 1) * T::spec_byte_len() + T::spec_byte_len() == s.len()
            * T::spec_byte_len()) by (nonlinear_arith);
    }
}

/// Cached GPU buffer of records of type `T`, automatically resized as
/// needed and rewritten in full on every use.
pub struct CachedBuffer<T, V> {
    /// The buffer handle, keyed by the element count it was sized for.
    pub inner: Cached<usize, V>,
    /// Records of type `T` determine the buffer's stride and contents.
    pub marker: core::marker::PhantomData<T>,
}

impl<T: WgpuStruct, V> CachedBuffer<T, V> {
    /// Constructs a new cached buffer; the first use creates the buffer.
    pub fn new() -> (r: Self)
        ensures
            r.inner.cached is None,
            r.inner.generation@ == 0,
    {
        CachedBuffer { inner: Cached::new(), marker: core::marker::PhantomData }
    }

    /// Returns a buffer sized for `len` records, recreating it through `f`
    /// only if `len` changed.
    pub fn get<F: FnOnce(usize) -> V>(&mut self, len: usize, f: F) -> (obj: &V)
        requires
            call_requires(f, (len,)),
        ensures
            old(self).inner.spec_hit(len) ==> {
                &&& final(self).inner == old(self).inner
                &&& *obj == old(self).inner.spec_obj()
            },
            !old(self).inner.spec_hit(len) ==> {
                &&& final(self).inner.cached == Some((len, *obj))
                &&& call_ensures(f, (len,), *obj)
                &&& final(self).inner.generation@ == old(self).inner.generation@ + 1
            },
            final(self).inner.cached is Some,
            *obj == final(self).inner.spec_obj(),
    {
        self.inner.get(len, f)
    }

    /// The uploads that rewrite a buffer's contents with `data`.
    ///
    /// When the record's byte image exactly matches its required stride,
    /// the whole array is copied as one contiguous block; otherwise each
    /// record is written at its own stride offset.
    pub fn write_ops(data: &Vec<T>) -> (ops: Vec<BufferWrite>)
        requires
            data@.len() * T::spec_stride() <= u64::MAX,
        ensures
            T::spec_stride() == T::spec_byte_len() ==> {
                &&& ops@.len() == 1
                &&& ops@[0].offset == 0
                &&& ops@[0].bytes@ == concat_wgpu_bytes(data@)
                &&& ops@[0].bytes@.len() == data@.len() * T::spec_byte_len()
            },
            T::spec_stride() != T::spec_byte_len() ==> {
                &&& ops@.len() == data@.len()
                &&& forall|i: int|
                    0 <= i < data@.len() ==> {
                        &&& (#[trigger] ops@[i]).offset == i * T::spec_stride()
                        &&& ops@[i].bytes@ == data@[i].spec_bytes()
                        &&& ops@[i].bytes@.len() == T::spec_byte_len()
                    }
            },
    {
        let stride = T::wgpu_stride();
        proof {
            T::stride_facts();
        }
        let mut ops: Vec<BufferWrite> = Vec::new();
        if stride == T::wgpu_byte_len() {
            // Optimization: copy the bytes of the array directly.
            let mut bytes: Vec<u8> = Vec::new();
            let mut i: usize = 0;
            while i < data.len()
                invariant
                    0 <= i <= data@.len(),
                    bytes@ == concat_wgpu_bytes(data@.take(i as int)),
                decreases data@.len() - i,
            {
                let mut rec = data[i].to_wgpu_bytes();
                bytes.append(&mut rec);
                proof {
                    assert(data@.take(i + 1).drop_last() =~= data@.take(i as int));
                    assert(data@.take(i + 1).last() == data@[i as int]);
                }
                i += 1;
            }
            proof {
                assert(data@.take(data@.len() as int) =~= data@);
                lemma_concat_wgpu_bytes_len(data@);
            }
            ops.push(BufferWrite { offset: 0, bytes });
        } else {
            // General case: copy each individual element of the array.
            let mut i: usize = 0;
            while i < data.len()
                invariant
                    0 <= i <= data@.len(),
                    data@.len() * T::spec_stride() <= u64::MAX,
                    0 < T::spec_stride(),
                    ops@.len() == i,
                    forall|j: int|
                        0 <= j < i ==> {
                            &&& (#[trigger] ops@[j]).offset == j * T::spec_stride()
                            &&& ops@[j].bytes@ == data@[j].spec_bytes()
                            &&& ops@[j].bytes@.len() == T::spec_byte_len()
                        },
                decreases data@.len() - i,
            {
                proof {
                    assert(i as int * T::spec_stride() <= (i as int + 1) * T::spec_stride()
                        <= data@.len() * T::spec_stride()) by (nonlinear_arith)
                        requires
                            i < data@.len(),
                            0 < T::spec_stride(),
                    ;
                    assert(i as int * T::spec_stride() >= 0) by (nonlinear_arith)
                        requires
                            i >= 0,
                            0 < T::spec_stride(),
                    ;
                }
                let offset = (i as u64) * T::wgpu_stride();
                let bytes = data[i].to_wgpu_bytes();
                ops.push(BufferWrite { offset, bytes });
                i += 1;
            }
        }
        ops
    }

    /// Sizes the buffer for `data` (recreating it through `f` only if the
    /// length changed), then returns the uploads that rewrite the whole
    /// buffer contents unconditionally.
    pub fn with_data<F: FnOnce(usize) -> V>(&mut self, data: &Vec<T>, f: F) -> (ops: Vec<
        BufferWrite,
    >)
        requires
            call_requires(f, (data@.len() as usize,)),
            data@.len() * T::spec_stride() <= u64::MAX,
        ensures
            old(self).inner.spec_hit(data@.len() as usize) ==> final(self).inner == old(
                self,
            ).inner,
            !old(self).inner.spec_hit(data@.len() as usize) ==> {
                &&& final(self).inner.spec_key() == Some(data@.len() as usize)
                &&& final(self).inner.generation@ == old(self).inner.generation@ + 1
            },
            final(self).inner.cached is Some,
            T::spec_stride() == T::spec_byte_len() ==> {
                &&& ops@.len() == 1
                &&& ops@[0].offset == 0
                &&& ops@[0].bytes@ == concat_wgpu_bytes(data@)
                &&& ops@[0].bytes@.len() == data@.len() * T::spec_byte_len()
            },
            T::spec_stride() != T::spec_byte_len() ==> {
                &&& ops@.len() == data@.len()
                &&& forall|i: int|
                    0 <= i < data@.len() ==> {
                        &&& (#[trigger] ops@[i]).offset == i * T::spec_stride()
                        &&& ops@[i].bytes@ == data@[i].spec_bytes()
                        &&& ops@[i].bytes@.len() == T::spec_byte_len()
                    }
            },
    {
        let _ = self.inner.get(data.len(), f);
        Self::write_ops(data)
    }
}

} // verus!
