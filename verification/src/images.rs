use vstd::prelude::*;
use crate::error::{AppError, AppErrorModel};
use crate::text::{join2, opt_text, owned};

verus! {

/// An image as the host keeps it: the key it was uploaded under and the
/// image itself.
#[derive(Debug)]
pub struct StoredImage {
    pub key: String,
    pub data: String,
}

/// What the image host holds, as mathematical values: the address under
/// which it serves, the images with their keys in the order in which the
/// keys first came, and whether it answers.
pub struct ImageHostModel {
    pub base_url: Seq<char>,
    pub images: Seq<(Seq<char>, Seq<char>)>,
    pub reachable: bool,
}

impl ImageHostModel {
    /// What the host keeps true: no key occurs twice.
    pub open spec fn wf(self) -> bool {
        forall|i: int, j: int|
            0 <= i < j < self.images.len() ==> (#[trigger] self.images[i]).0 != (
            #[trigger] self.images[j]).0
    }

    /// Whether the image at the given place has the given key.
    pub open spec fn key_at(self, i: int, key: Seq<char>) -> bool {
        0 <= i < self.images.len() && self.images[i].0 == key
    }

    /// The image kept under the given key.
    pub open spec fn image(self, key: Seq<char>) -> Option<Seq<char>> {
        if exists|i: int| self.key_at(i, key) {
            Some(self.images[choose|i: int| self.key_at(i, key)].1)
        } else {
            None
        }
    }

    /// The address under which the image with the given key is served.
    pub open spec fn url_of(self, key: Seq<char>) -> Seq<char> {
        self.base_url + key
    }

    /// The host with the given image under the given key: in the place of
    /// the image that had the key before, or as one more image where none
    /// had it.
    pub open spec fn holding(self, key: Seq<char>, data: Seq<char>) -> ImageHostModel {
        if exists|i: int| self.key_at(i, key) {
            ImageHostModel {
                images: self.images.update(choose|i: int| self.key_at(i, key), (key, data)),
                ..self
            }
        } else {
            ImageHostModel { images: self.images.push((key, data)), ..self }
        }
    }

    /// The host and its answer after an upload: where the host answers, it
    /// holds the image under the key and gives the image's address; where
    /// not, it is as before and the upload fails.
    pub open spec fn uploaded(self, data: Seq<char>, key: Seq<char>) -> (
        ImageHostModel,
        Result<Seq<char>, AppErrorModel>,
    ) {
        if self.reachable {
            (self.holding(key, data), Ok(self.url_of(key)))
        } else {
            (self, Err(upload_failure()))
        }
    }
}

/// The failure of an upload.
pub open spec fn upload_failure() -> AppErrorModel {
    AppErrorModel::upstream("Image upload failed"@)
}

/// The views of a list of stored images.
pub open spec fn image_models(images: Seq<StoredImage>) -> Seq<(Seq<char>, Seq<char>)> {
    Seq::new(images.len(), |i: int| (images[i].key@, images[i].data@))
}

/// What an upload returns, as mathematical values.
pub open spec fn served(r: Result<String, AppError>) -> Result<Seq<char>, AppErrorModel> {
    match r {
        Ok(url) => Ok(url@),
        Err(e) => Err(e@),
    }
}

/// The image host, held in memory. It stands for the service that stores
/// profile pictures: an upload under a key that it already holds replaces
/// the image, so the images of one key never pile up.
#[derive(Debug)]
pub struct ImageHost {
    base_url: String,
    images: Vec<StoredImage>,
    reachable: bool,
}

impl View for ImageHost {
    type V = ImageHostModel;

    closed spec fn view(&self) -> ImageHostModel {
        ImageHostModel {
            base_url: self.base_url@,
            images: image_models(self.images@),
            reachable: self.reachable,
        }
    }
}

impl ImageHost {
    /// Whether the host is in order.
    pub open spec fn wf(&self) -> bool {
        self@.wf()
    }

    /// A host that holds no image, answers, and serves under the given
    /// address.
    pub fn new(base_url: &str) -> (r: ImageHost)
        ensures
            r.wf(),
            r@ == (ImageHostModel { base_url: base_url@, images: Seq::empty(), reachable: true }),
    {
        let r = ImageHost { base_url: owned(base_url), images: Vec::new(), reachable: true };
        assert(r@.images =~= Seq::empty());
        r
    }

    /// Makes the host answer, or stop answering.
    pub fn set_reachable(&mut self, reachable: bool)
        ensures
            final(self)@ == (ImageHostModel { reachable, ..old(self)@ }),
    {
        self.reachable = reachable;
    }

    /// The place of the image with the given key.
    fn key_position(&self, key: &String) -> (r: Option<usize>)
        ensures
            match r {
                Some(i) => self@.key_at(i as int, key@),
                None => forall|i: int| !self@.key_at(i, key@),
            },
    {
        let mut i: usize = 0;
        while i < self.images.len()
            invariant
                i <= self.images.len(),
                forall|k: int| 0 <= k < i ==> !self@.key_at(k, key@),
            decreases self.images.len() - i,
        {
            if self.images[i].key == *key {
                return Some(i);
            }
            i = i + 1;
        }
        None
    }

    /// How many images the host holds.
    pub fn len(&self) -> (r: usize)
        ensures
            r == self@.images.len(),
    {
        self.images.len()
    }

    /// The image kept under the given key, where there is one.
    pub fn image(&self, key: &str) -> (r: Option<String>)
        requires
            self.wf(),
        ensures
            opt_text(r) == self@.image(key@),
    {
        let wanted = owned(key);
        match self.key_position(&wanted) {
            Some(i) => {
                proof {
                    lemma_key_unique(self@, i as int, key@);
                }
                Some(self.images[i].data.clone())
            },
            None => None,
        }
    }

    /// Stores an image under a key and returns the address under which it
    /// is served. An image that was stored under the key before is replaced.
    /// Fails, and changes nothing, exactly where the host does not answer.
    pub fn upload(&mut self, data: &str, key: &str) -> (r: Result<String, AppError>)
        requires
            old(self).wf(),
        ensures
            final(self).wf(),
            (final(self)@, served(r)) == old(self)@.uploaded(data@, key@),
    {
        if !self.reachable {
            return Err(AppError::upstream("Image upload failed"));
        }
        let ghost before = self@;
        let wanted = owned(key);
        let url = join2(self.base_url.as_str(), key);
        match self.key_position(&wanted) {
            Some(i) => {
                proof {
                    lemma_key_unique(before, i as int, key@);
                }
                self.images.set(i, StoredImage { key: wanted, data: owned(data) });
                proof {
                    assert(self@.images =~= before.images.update(i as int, (key@, data@)));
                }
            },
            None => {
                self.images.push(StoredImage { key: wanted, data: owned(data) });
                proof {
                    assert(self@.images =~= before.images.push((key@, data@)));
                    assert forall|i: int, j: int| 0 <= i < j < self@.images.len() implies (
                    #[trigger] self@.images[i]).0 != (#[trigger] self@.images[j]).0 by {
                        if j == before.images.len() {
                            assert(!before.key_at(i, key@));
                        }
                    }
                }
            },
        }
        Ok(url)
    }
}

/// In a host that is in order, the image with a given key stands at one
/// place only.
pub proof fn lemma_key_unique(host: ImageHostModel, i: int, key: Seq<char>)
    requires
        host.wf(),
        host.key_at(i, key),
    ensures
        host.image(key) == Some(host.images[i].1),
        (choose|j: int| host.key_at(j, key)) == i,
        forall|j: int| host.key_at(j, key) ==> j == i,
{
    assert forall|j: int| host.key_at(j, key) implies j == i by {
        if j < i {
            assert(host.images[j].0 != host.images[i].0);
        }
        if i < j {
            assert(host.images[i].0 != host.images[j].0);
        }
    }
}

/// An upload under a key leaves the host in order and makes the image the
/// one that the host keeps under the key. A second upload under the same
/// key takes the place of the first: the host holds no more images than
/// after the first, and keeps the second.
pub proof fn lemma_upload_replaces(
    host: ImageHostModel,
    key: Seq<char>,
    first: Seq<char>,
    second: Seq<char>,
)
    requires
        host.wf(),
    ensures
        host.holding(key, first).wf(),
        host.holding(key, first).image(key) == Some(first),
        host.holding(key, first).holding(key, second).images.len() == host.holding(
            key,
            first,
        ).images.len(),
        host.holding(key, first).holding(key, second).image(key) == Some(second),
{
    lemma_holding(host, key, first);
    lemma_holding(host.holding(key, first), key, second);
    let once = host.holding(key, first);
    let place = choose|i: int| once.key_at(i, key);
    lemma_key_unique(once, place, key);
}

/// An upload under a key leaves the host in order, with the image under
/// the key.
proof fn lemma_holding(host: ImageHostModel, key: Seq<char>, data: Seq<char>)
    requires
        host.wf(),
    ensures
        host.holding(key, data).wf(),
        exists|i: int| host.holding(key, data).key_at(i, key),
        host.holding(key, data).image(key) == Some(data),
{
    let after = host.holding(key, data);
    if exists|i: int| host.key_at(i, key) {
        let place = choose|i: int| host.key_at(i, key);
        lemma_key_unique(host, place, key);
        assert forall|i: int, j: int| 0 <= i < j < after.images.len() implies (
        #[trigger] after.images[i]).0 != (#[trigger] after.images[j]).0 by {
            assert(host.images[i].0 != host.images[j].0);
        }
        assert(after.key_at(place, key));
        lemma_key_unique(after, place, key);
    } else {
        let place = host.images.len() as int;
        assert forall|i: int, j: int| 0 <= i < j < after.images.len() implies (
        #[trigger] after.images[i]).0 != (#[trigger] after.images[j]).0 by {
            if j == place {
                assert(!host.key_at(i, key));
            } else {
                assert(host.images[i].0 != host.images[j].0);
            }
        }
        assert(after.key_at(place, key));
        lemma_key_unique(after, place, key);
    }
}

} // verus!
