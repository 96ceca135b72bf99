//! The single-slot cache of the most recent successfully fetched
//! screenshot: empty at process start, overwritten whole on every success,
//! never evicted otherwise. A read yields either nothing or one complete
//! stored image — there is no partial state to observe. `SharedImageCache`
//! shares one slot across concurrent requests behind a verified
//! reader-writer lock: many concurrent readers or one exclusive writer.

use vstd::prelude::*;
use vstd::rwlock::{RwLock, RwLockPredicate};

verus! {

/// The single-slot store. Its view is the abstract contents: no image yet,
/// or the bytes of the one most recently stored image.
pub struct LastImageCache {
    slot: Option<Vec<u8>>,
}

impl View for LastImageCache {
    type V = Option<Seq<u8>>;

    closed spec fn view(&self) -> Option<Seq<u8>> {
        match self.slot {
            Some(img) => Some(img@),
            None => None,
        }
    }
}

/// What the diagnostic endpoint answers: the complete cached image, or a
/// not-found response while nothing has been captured yet.
pub enum LastImageReply {
    Image { bytes: Vec<u8> },
    Missing { status: u16, body: String },
}

impl LastImageCache {
    /// An empty cache: what the process starts with.
    pub fn new() -> (r: LastImageCache)
        ensures
            r@ is None,
    {
        LastImageCache { slot: None }
    }

    /// Stores a newly fetched screenshot, replacing whatever was there:
    /// afterwards the cache holds exactly the new image, whole.
    pub fn store(&mut self, img: Vec<u8>)
        ensures
            final(self)@ == Some(img@),
    {
        self.slot = Some(img);
    }

    /// Answers a read of the cache: the complete stored image when one is
    /// there, otherwise a not-found status with its message. A reply never
    /// mixes states — its bytes are exactly the stored image's bytes.
    pub fn last_image_reply(&self) -> (r: LastImageReply)
        ensures
            self@ matches Some(img) ==> (r matches LastImageReply::Image { bytes } && bytes@
                == img),
            self@ is None ==> (r matches LastImageReply::Missing { status, body } && status == 404
                && body@ == "No image available"@),
    {
        match &self.slot {
            Some(img) => {
                let bytes = img.clone();
                proof {
                    assert forall|i: int| 0 <= i < img@.len() implies img@[i] == bytes@[i] by {
                        assert(cloned::<u8>(img@[i], bytes@[i]));
                    }
                    assert(bytes@ =~= img@);
                }
                LastImageReply::Image { bytes }
            },
            None => LastImageReply::Missing {
                status: 404,
                body: String::from_str("No image available"),
            },
        }
    }
}

/// The process-wide cache: one `LastImageCache` slot behind a verified
/// reader-writer lock, so that concurrent requests see many readers or one
/// exclusive writer and a read can only ever observe a complete stored
/// value — the lock hands out the whole slot, so a torn or partial write
/// cannot be seen.
pub struct SharedImageCache {
    lock: RwLock<LastImageCache, AnyCacheValue>,
}

/// The lock's content predicate: every cache value is a valid slot, so the
/// lock constrains nothing beyond whole-value access.
pub struct AnyCacheValue;

impl RwLockPredicate<LastImageCache> for AnyCacheValue {
    open spec fn inv(self, v: LastImageCache) -> bool {
        true
    }
}

impl SharedImageCache {
    /// An empty shared cache: what the process starts with.
    pub fn new() -> (r: SharedImageCache) {
        SharedImageCache {
            lock: RwLock::new(LastImageCache::new(), Ghost(AnyCacheValue)),
        }
    }

    /// Stores a newly fetched screenshot under the exclusive write lock,
    /// replacing the whole slot at once.
    pub fn store(&self, img: Vec<u8>) {
        let (mut cache, handle) = self.lock.acquire_write();
        cache.store(img);
        handle.release_write(cache);
    }

    /// Answers a read of the shared cache under a read lock. Any number of
    /// readers may hold the lock at once; each sees one complete slot
    /// value, so the reply carries either the previous complete image or
    /// the new complete one, never a mixture.
    pub fn read_reply(&self) -> (r: LastImageReply)
        ensures
            r matches LastImageReply::Missing { status, body } ==> status == 404 && body@
                == "No image available"@,
    {
        let handle = self.lock.acquire_read();
        let reply = handle.borrow().last_image_reply();
        handle.release_read();
        reply
    }
}

} // verus!
