//! Counters of the bytes read and written through a server or client, its tunnels
//! and their streams. A counter can have a parent, and every byte counted by a
//! counter is counted by its parent too.
use vstd::prelude::*;

use std::sync::atomic::{AtomicUsize, Ordering};
use std::sync::Arc;

verus! {

/// A shared byte counter; clones count into the same totals.
#[derive(Debug)]
pub struct ByteCounter {
    inner: Arc<ByteCounterInner>,
}

#[derive(Debug)]
struct ByteCounterInner {
    parent: Option<ByteCounter>,
    bytes_write: AtomicUsize,
    bytes_read: AtomicUsize,
}

/// Number of counters from `c` up to the root of its chain of parents, `c`
/// included.
pub open spec fn spec_depth(c: ByteCounter) -> nat
    decreases c,
{
    match c.spec_parent() {
        Some(p) => 1 + spec_depth(p),
        None => 1,
    }
}

impl Clone for ByteCounter {
    /// A handle on the same counter.
    fn clone(&self) -> (r: Self)
        ensures
            r == *self,
    {
        ByteCounter { inner: self.inner.clone() }
    }
}

impl ByteCounter {
    /// The counter that also counts every byte counted by this one.
    pub closed spec fn spec_parent(self) -> Option<ByteCounter> {
        self.inner.parent
    }

    /// A counter at zero under `parent`.
    pub fn new(parent: Option<ByteCounter>) -> (r: Self)
        ensures
            r.spec_parent() == parent,
    {
        ByteCounter {
            inner: Arc::new(
                ByteCounterInner {
                    parent,
                    bytes_write: AtomicUsize::new(0),
                    bytes_read: AtomicUsize::new(0),
                },
            ),
        }
    }

    /// Bytes read so far.
    pub fn bytes_read(&self) -> usize {
        self.inner.bytes_read.load(Ordering::Relaxed)
    }

    /// Bytes written so far.
    pub fn bytes_write(&self) -> usize {
        self.inner.bytes_write.load(Ordering::Relaxed)
    }

    /// Counts `bytes` more bytes read, here and in every ancestor.
    pub fn add_bytes_read(&self, bytes: usize)
        decreases spec_depth(*self),
    {
        if let Some(parent) = &self.inner.parent {
            parent.add_bytes_read(bytes);
        }
        self.inner.bytes_read.fetch_add(bytes, Ordering::Relaxed);
    }

    /// Counts `bytes` more bytes written, here and in every ancestor.
    pub fn add_bytes_write(&self, bytes: usize)
        decreases spec_depth(*self),
    {
        if let Some(parent) = &self.inner.parent {
            parent.add_bytes_write(bytes);
        }
        self.inner.bytes_write.fetch_add(bytes, Ordering::Relaxed);
    }
}

} // verus!
