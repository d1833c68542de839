//! Artwork: from the disk cache, or through the shared client and then into
//! the cache.
use crate::app_state::SoneError;
use crate::proxy_http::{ProxiedHttp, Slot};
use vstd::prelude::*;
use vstd::string::*;

verus! {

/// What the disk cache has for a URL.
pub enum CacheResult {
    Fresh(Vec<u8>),
    Stale(Vec<u8>),
    Miss,
}

/// How an image is had.
pub enum ImageStep {
    /// Answer with the bytes. Nothing leaves the machine.
    Respond(Vec<u8>),
    /// Fetch the URL with this client.
    Fetch(reqwest::Client),
}

/// How an image is had, from what the cache gave and what the shared cell holds.
pub open spec fn image_step(cached: CacheResult, slot: Slot) -> Result<ImageStep, SoneError> {
    match (cached, slot) {
        (CacheResult::Fresh(bytes), _) => Ok(ImageStep::Respond(bytes)),
        (CacheResult::Stale(bytes), _) => Ok(ImageStep::Respond(bytes)),
        (CacheResult::Miss, Ok(client)) => Ok(ImageStep::Fetch(client)),
        (CacheResult::Miss, Err(block)) => Err(SoneError::ProxyBlocked { reason: block.cause }),
    }
}

/// An image in the cache is the answer, fresh or stale, whatever the cell holds:
/// a block does not take away what is on disk.
pub proof fn law_hit_needs_no_client(bytes: Vec<u8>, slot: Slot)
    ensures
        image_step(CacheResult::Fresh(bytes), slot) == Ok::<ImageStep, SoneError>(
            ImageStep::Respond(bytes),
        ),
        image_step(CacheResult::Stale(bytes), slot) == Ok::<ImageStep, SoneError>(
            ImageStep::Respond(bytes),
        ),
{
}

/// An image that is not in the cache is fetched with the very client that the
/// cell holds, and where it holds none nothing is fetched: the caller is told
/// the cause of the block.
pub proof fn law_miss_goes_through_the_cell(slot: Slot)
    ensures
        slot matches Ok(client) ==> image_step(CacheResult::Miss, slot) == Ok::<
            ImageStep,
            SoneError,
        >(ImageStep::Fetch(client)),
        slot matches Err(block) ==> (image_step(CacheResult::Miss, slot) matches Err(e)
            && e == SoneError::ProxyBlocked { reason: block.cause }),
{
}

/// Decides how an image is had from what the cache gave: a stale image serves
/// as well as a fresh one, and a miss is fetched through the shared cell or,
/// where that is blocked, not at all.
pub fn get_image_bytes(cached: CacheResult, http: &ProxiedHttp) -> (r: Result<
    ImageStep,
    SoneError,
>)
    ensures
        r == image_step(cached, http@.slot),
        match cached {
            CacheResult::Fresh(bytes) => r == Ok::<ImageStep, SoneError>(ImageStep::Respond(bytes)),
            CacheResult::Stale(bytes) => r == Ok::<ImageStep, SoneError>(ImageStep::Respond(bytes)),
            CacheResult::Miss => match http@.slot {
                Ok(c) => r == Ok::<ImageStep, SoneError>(ImageStep::Fetch(c)),
                Err(block) => r == Err::<ImageStep, SoneError>(
                    SoneError::ProxyBlocked { reason: block.cause },
                ),
            },
        },
{
    match cached {
        CacheResult::Fresh(bytes) => Ok(ImageStep::Respond(bytes)),
        CacheResult::Stale(bytes) => Ok(ImageStep::Respond(bytes)),
        CacheResult::Miss => match http.client() {
            Ok(c) => Ok(ImageStep::Fetch(c)),
            Err(block) => Err(SoneError::ProxyBlocked { reason: block.cause }),
        },
    }
}

/// An entry for the disk cache's image tier.
pub struct CacheWrite {
    pub url: String,
    pub bytes: Vec<u8>,
    pub tag: String,
}

/// Whether `r` is what follows the fetch of `url`.
pub open spec fn kept_as(
    url: String,
    fetched: Result<Vec<u8>, SoneError>,
    r: Result<CacheWrite, SoneError>,
) -> bool {
    match (fetched, r) {
        (Ok(bytes), Ok(entry)) => entry.url == url && entry.bytes == bytes && entry.tag@
            == "image"@,
        (Err(e), Err(told)) => told == e,
        _ => false,
    }
}

/// The bytes that the caller is given of an entry.
pub open spec fn bytes_given(entry: CacheWrite) -> Vec<u8> {
    entry.bytes
}

/// What was fetched is what is kept, under the URL that it was fetched from, and
/// what the caller is given; a fetch that failed keeps nothing, and the caller is
/// told of that failure.
pub proof fn law_fetched_bytes_are_kept_and_given(
    url: String,
    fetched: Result<Vec<u8>, SoneError>,
    r: Result<CacheWrite, SoneError>,
)
    requires
        kept_as(url, fetched, r),
    ensures
        fetched matches Ok(bytes) ==> (r matches Ok(entry) && entry.url == url && entry.bytes
            == bytes && bytes_given(entry) == bytes && entry.tag@ == seq!['i', 'm', 'a', 'g', 'e']),
        fetched matches Err(e) ==> (r matches Err(told) && told == e),
{
    reveal_strlit("image");
    assert("image"@ =~= seq!['i', 'm', 'a', 'g', 'e']);
}

/// What follows a fetch: the image is put into the cache under its URL, unless
/// the fetch failed, in which case the failure is the answer.
pub fn image_fetched(url: String, fetched: Result<Vec<u8>, SoneError>) -> (r: Result<
    CacheWrite,
    SoneError,
>)
    ensures
        kept_as(url, fetched, r),
        match fetched {
            Ok(bytes) => r matches Ok(entry) && entry.url == url && entry.bytes == bytes
                && entry.tag@ == "image"@,
            Err(e) => r == Err::<CacheWrite, SoneError>(e),
        },
{
    match fetched {
        Ok(bytes) => Ok(CacheWrite { url, bytes, tag: "image".to_owned() }),
        Err(e) => Err(e),
    }
}

/// The answer after the cache was written, or failed to be: the bytes fetched,
/// either way.
pub fn image_cached(entry: CacheWrite, _stored: Result<(), SoneError>) -> (r: Vec<u8>)
    ensures
        r == bytes_given(entry),
        r == entry.bytes,
{
    entry.bytes
}

} // verus!
