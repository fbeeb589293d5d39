//! A small object pool: spare values wait in line, are handed out from the
//! front, and are kept on return only while the pool is under its bound.

use vstd::prelude::*;

verus! {

/// A pool of spare values with a size bound.
pub struct ObjectPool<T> {
    objects: Vec<T>,
    max_size: usize,
}

/// One value handed out of a pool.
pub struct PooledObject<T> {
    object: T,
}

impl<T> PooledObject<T> {
    /// The held value.
    pub closed spec fn spec_object(self) -> T {
        self.object
    }

    /// Borrow the held value.
    pub fn object(&self) -> (r: &T)
        ensures
            *r == self.spec_object(),
    {
        &self.object
    }

    /// Take the held value out; give it back to the pool with `put_back`.
    pub fn into_inner(self) -> (r: T)
        ensures
            r == self.spec_object(),
    {
        self.object
    }
}

impl<T> ObjectPool<T> {
    /// The waiting values, front first.
    pub closed spec fn spec_objects(self) -> Seq<T> {
        self.objects@
    }

    /// The pool's size bound.
    pub closed spec fn spec_max_size(self) -> int {
        self.max_size as int
    }

    /// An empty pool that will keep at most `max_size` spare values.
    pub fn new(max_size: usize) -> (r: Self)
        ensures
            r.spec_objects() == Seq::<T>::empty(),
            r.spec_max_size() == max_size,
    {
        ObjectPool { objects: Vec::new(), max_size }
    }

    /// Hand out the front value, if any is waiting.
    pub fn get(&mut self) -> (r: Option<PooledObject<T>>)
        ensures
            final(self).spec_max_size() == old(self).spec_max_size(),
            r is Some <==> old(self).spec_objects().len() > 0,
            r matches Some(p) ==> {
                &&& p.spec_object() == old(self).spec_objects()[0]
                &&& final(self).spec_objects() == old(self).spec_objects().drop_first()
            },
            r is None ==> final(self).spec_objects() == old(self).spec_objects(),
    {
        if self.objects.len() == 0 {
            proof {
                assert(self.objects@ =~= old(self).objects@);
            }
            return None;
        }
        let object = self.objects.remove(0);
        proof {
            assert(self.objects@ =~= old(self).objects@.drop_first());
        }
        Some(PooledObject { object })
    }

    /// Return a value to the back of the line; it is dropped instead when
    /// the pool is already at its bound.
    pub fn put_back(&mut self, object: T)
        ensures
            final(self).spec_max_size() == old(self).spec_max_size(),
            old(self).spec_objects().len() < old(self).spec_max_size() ==> final(self)
                .spec_objects() == old(self).spec_objects().push(object),
            old(self).spec_objects().len() >= old(self).spec_max_size() ==> final(self)
                .spec_objects() == old(self).spec_objects(),
    {
        if self.objects.len() < self.max_size {
            self.objects.push(object);
        }
    }
}

} // verus!
