use vstd::hash_map::StringHashMap;
use vstd::prelude::*;

verus! {

/// Why an image could not be loaded.
#[derive(Copy, Clone, Debug, PartialEq, Eq, Structural)]
pub enum ImageLoadError {
    /// The file could not be read.
    Unreadable,
    /// The bytes are not an image the codec knows.
    Undecodable,
}

/// The decoded images, by path. An entry stays until it is unloaded; nothing
/// is ever evicted by itself.
#[verifier::reject_recursive_types(T)]
pub struct ImageCache<T> {
    images: StringHashMap<T>,
    decodes: u64,
}

impl<T> ImageCache<T> {
    /// The images held, by path.
    pub closed spec fn entries(&self) -> Map<Seq<char>, T> {
        self.images@
    }

    /// How many decoded images have been stored so far, up to the counter's
    /// limit.
    pub closed spec fn spec_decode_count(&self) -> u64 {
        self.decodes
    }

    /// An empty cache.
    pub fn new() -> (cache: Self)
        ensures
            cache.entries() == Map::<Seq<char>, T>::empty(),
            cache.spec_decode_count() == 0,
    {
        ImageCache { images: StringHashMap::new(), decodes: 0 }
    }

    #[verifier::when_used_as_spec(spec_decode_count)]
    pub fn decode_count(&self) -> (count: u64)
        ensures
            count == self.spec_decode_count(),
    {
        self.decodes
    }

    /// Whether an image is held for `path`.
    pub fn is_loaded(&self, path: &str) -> (held: bool)
        ensures
            held == self.entries().contains_key(path@),
    {
        self.images.contains_key(path)
    }

    /// The image held for `path`. Where there is none, the caller decodes
    /// the file and hands the outcome to `load_image`.
    pub fn image(&self, path: &str) -> (found: Option<&T>)
        ensures
            found.is_some() == self.entries().contains_key(path@),
            found matches Some(image) ==> *image == self.entries()[path@],
    {
        self.images.get(path)
    }

    /// Takes the outcome of decoding the file at `path`. A decoded image is
    /// stored under the path, over whatever was held for it, and counted. A
    /// failure leaves the cache as it was and is handed back.
    pub fn load_image(&mut self, path: String, decoded: Result<T, ImageLoadError>) -> (outcome: Result<
        (),
        ImageLoadError,
    >)
        ensures
            match decoded {
                Ok(image) => {
                    &&& outcome.is_ok()
                    &&& final(self).entries() == old(self).entries().insert(path@, image)
                    &&& final(self).spec_decode_count() == if old(self).spec_decode_count()
                        < u64::MAX {
                        (old(self).spec_decode_count() + 1) as u64
                    } else {
                        old(self).spec_decode_count()
                    }
                },
                Err(reason) => {
                    &&& outcome == Err::<(), ImageLoadError>(reason)
                    &&& final(self).entries() == old(self).entries()
                    &&& final(self).spec_decode_count() == old(self).spec_decode_count()
                },
            },
    {
        match decoded {
            Ok(image) => {
                self.images.insert(path, image);
                if self.decodes < u64::MAX {
                    self.decodes = self.decodes + 1;
                }
                Ok(())
            },
            Err(reason) => Err(reason),
        }
    }

    /// Drops the image held for `path`, if there is one.
    pub fn unload_image(&mut self, path: &str)
        ensures
            final(self).entries() == old(self).entries().remove(path@),
            final(self).spec_decode_count() == old(self).spec_decode_count(),
    {
        self.images.remove(path);
    }
}

/// Once an image has been loaded and then unloaded, nothing is held for its
/// path: the next draw that names it has to decode the file afresh. Other
/// paths keep what they held.
pub proof fn lemma_unload_forgets<T>(entries: Map<Seq<char>, T>, path: Seq<char>, image: T)
    ensures
        !entries.insert(path, image).remove(path).contains_key(path),
        forall|other: Seq<char>|
            other != path ==> (#[trigger] entries.insert(path, image).remove(path).contains_key(other)
                == entries.contains_key(other)),
{
}

} // verus!
