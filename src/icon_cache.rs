use vstd::prelude::*;
use crate::cache::{items_wf, key_pos, put_items, touched};
use crate::error::joined;
use crate::text::{chars_of, lower_of, seq_equal, to_lower};

verus! {

/// Largest icon, in bytes, that is sent base64-encoded.
pub const MAX_ICON_SIZE_FOR_BASE64: usize = 10240;

/// Default number of cached icons.
pub const DEFAULT_ICON_CAPACITY: usize = 100;

/// The store behind the icon cache: path text to icon reference.
pub type IconStore = lru::LruCache<String, String, std::collections::hash_map::RandomState>;

/// The store's entries, most recently used first.
pub uninterp spec fn icon_items(c: IconStore) -> Seq<(Seq<char>, Seq<char>)>;

/// The number of entries the store was made to hold.
pub uninterp spec fn icon_capacity(c: IconStore) -> nat;

/// Relies on `lru::LruCache::with_hasher`: an empty store that holds `cap`
/// entries.
#[verifier::external_body]
fn icon_store_new(cap: usize) -> (r: IconStore)
    requires
        cap > 0,
    ensures
        icon_items(r) == Seq::<(Seq<char>, Seq<char>)>::empty(),
        icon_capacity(r) == cap,
{
    let cap = std::num::NonZeroUsize::new(cap).unwrap();
    lru::LruCache::with_hasher(cap, std::collections::hash_map::RandomState::new())
}

/// Relies on `lru::LruCache::get`: the icon of `key`, whose entry moves to
/// the front.
#[verifier::external_body]
fn icon_store_get(c: &mut IconStore, key: &str) -> (r: Option<String>)
    requires
        items_wf(icon_items(*old(c)), icon_capacity(*old(c))),
    ensures
        icon_capacity(*final(c)) == icon_capacity(*old(c)),
        ({
            let s = icon_items(*old(c));
            let i = key_pos(s, key@);
            if i >= 0 {
                r is Some && r->0@ == s[i].1 && icon_items(*final(c)) == touched(s, i)
            } else {
                r is None && icon_items(*final(c)) == s
            }
        }),
{
    c.get(key).cloned()
}

/// Relies on `lru::LruCache::put`: stores the icon at the front, replacing
/// one of the same key or else evicting the least recently used one when full.
#[verifier::external_body]
fn icon_store_put(c: &mut IconStore, key: String, icon: String)
    requires
        items_wf(icon_items(*old(c)), icon_capacity(*old(c))),
    ensures
        icon_capacity(*final(c)) == icon_capacity(*old(c)),
        icon_items(*final(c)) == put_items(icon_items(*old(c)), key@, icon@, icon_capacity(*old(c))),
{
    c.put(key, icon);
}

/// Relies on `lru::LruCache::clear`: removes every entry.
#[verifier::external_body]
fn icon_store_clear(c: &mut IconStore)
    ensures
        icon_capacity(*final(c)) == icon_capacity(*old(c)),
        icon_items(*final(c)) == Seq::<(Seq<char>, Seq<char>)>::empty(),
{
    c.clear();
}

/// Relies on `lru::LruCache::len`: the number of entries.
#[verifier::external_body]
fn icon_store_len(c: &IconStore) -> (r: usize)
    ensures
        r == icon_items(*c).len(),
{
    c.len()
}

/// What `base64`'s standard engine (with padding) encodes `b` as.
pub uninterp spec fn base64_of(b: Seq<u8>) -> Seq<char>;

/// Relies on `base64::engine::general_purpose::STANDARD.encode`: the result
/// depends on the bytes alone.
#[verifier::external_body]
fn base64_standard(data: &[u8]) -> (r: String)
    ensures
        r@ == base64_of(data@),
{
    base64::Engine::encode(&base64::engine::general_purpose::STANDARD, data)
}

/// What `Path::extension` gives for the path text `p`, as text.
pub uninterp spec fn path_extension(p: Seq<char>) -> Option<Seq<char>>;

/// Relies on `std::path::Path::extension`: the part of the file name after
/// its last dot, if any; the result depends on the path text alone.
#[verifier::external_body]
pub(crate) fn extension_of(path: &str) -> (r: Option<String>)
    ensures
        match r {
            Some(e) => path_extension(path@) == Some(e@),
            None => path_extension(path@) is None,
        },
{
    std::path::Path::new(path).extension().and_then(|e| e.to_str()).map(|e| e.to_owned())
}

/// The generic icon for a lower-cased extension.
pub open spec fn icon_for_extension(e: Seq<char>) -> Seq<char> {
    if e == "txt"@ || e == "md"@ || e == "log"@ {
        "file-text"@
    } else if e == "pdf"@ {
        "file-pdf"@
    } else if e == "doc"@ || e == "docx"@ {
        "file-word"@
    } else if e == "xls"@ || e == "xlsx"@ {
        "file-excel"@
    } else if e == "ppt"@ || e == "pptx"@ {
        "file-powerpoint"@
    } else if e == "jpg"@ || e == "jpeg"@ || e == "png"@ || e == "gif"@ || e == "bmp"@ || e == "svg"@ || e == "webp"@ {
        "file-image"@
    } else if e == "mp4"@ || e == "avi"@ || e == "mkv"@ || e == "mov"@ || e == "wmv"@ || e == "flv"@ {
        "file-video"@
    } else if e == "mp3"@ || e == "wav"@ || e == "flac"@ || e == "aac"@ || e == "ogg"@ || e == "wma"@ {
        "file-audio"@
    } else if e == "zip"@ || e == "rar"@ || e == "7z"@ || e == "tar"@ || e == "gz"@ || e == "bz2"@ {
        "file-archive"@
    } else if e == "rs"@ || e == "py"@ || e == "js"@ || e == "ts"@ || e == "jsx"@ || e == "tsx"@ || e == "java"@ || e == "c"@ || e == "cpp"@ || e == "h"@ || e == "hpp"@ || e == "html"@ || e == "css"@ || e == "json"@ || e == "xml"@ || e == "yaml"@ || e == "yml"@ {
        "file-code"@
    } else if e == "exe"@ || e == "msi"@ || e == "bat"@ || e == "cmd"@ || e == "ps1"@ {
        "file-executable"@
    } else {
        "file"@
    }
}

/// The generic icon for a path: by its lower-cased extension, `unknown`
/// standing for a path without one.
pub open spec fn generic_icon(path: Seq<char>) -> Seq<char> {
    match path_extension(path) {
        Some(e) => icon_for_extension(lower_of(e)),
        None => icon_for_extension(lower_of("unknown"@)),
    }
}

/// The placeholder icon reference of a path: `file-icon:` and its
/// extension, or `file-icon:unknown`.
pub open spec fn placeholder_icon(path: Seq<char>) -> Seq<char> {
    match path_extension(path) {
        Some(e) => "file-icon:"@ + e,
        None => "file-icon:unknown"@,
    }
}

fn is_word(e: &Vec<char>, w: &str) -> (r: bool)
    ensures
        r == (e@ == w@),
{
    seq_equal(e, &chars_of(w))
}

/// Bounded path-to-icon store with least-recently-used eviction.
pub struct IconCache {
    store: IconStore,
}

impl IconCache {
    /// The entries, most recently used first.
    pub closed spec fn items(&self) -> Seq<(Seq<char>, Seq<char>)> {
        icon_items(self.store)
    }

    pub closed spec fn capacity(&self) -> nat {
        icon_capacity(self.store)
    }

    pub open spec fn wf(&self) -> bool {
        items_wf(self.items(), self.capacity()) && self.capacity() > 0
    }

    /// An empty cache of `DEFAULT_ICON_CAPACITY` icons.
    pub fn new() -> (r: IconCache)
        ensures
            r.wf(),
            r.items().len() == 0,
            r.capacity() == DEFAULT_ICON_CAPACITY,
    {
        Self::with_capacity(DEFAULT_ICON_CAPACITY)
    }

    /// An empty cache of `capacity` icons (100 when zero is given).
    pub fn with_capacity(capacity: usize) -> (r: IconCache)
        ensures
            r.wf(),
            r.items().len() == 0,
            r.capacity() == (if capacity == 0 { DEFAULT_ICON_CAPACITY as nat } else { capacity as nat }),
    {
        let cap = if capacity == 0 { DEFAULT_ICON_CAPACITY } else { capacity };
        IconCache { store: icon_store_new(cap) }
    }

    /// The cached icon of `path`; a hit counts as a use.
    pub fn get(&mut self, path: &str) -> (r: Option<String>)
        requires
            old(self).wf(),
        ensures
            final(self).wf(),
            final(self).capacity() == old(self).capacity(),
            ({
                let s = old(self).items();
                let i = key_pos(s, path@);
                if i >= 0 {
                    r is Some && r->0@ == s[i].1 && final(self).items() == touched(s, i)
                } else {
                    r is None && final(self).items() == s
                }
            }),
    {
        let ghost s = self.items();
        let ghost i = key_pos(s, path@);
        let r = icon_store_get(&mut self.store, path);
        proof {
            if i >= 0 {
                crate::cache::lemma_touched_wf(s, i, self.capacity());
            }
        }
        r
    }

    /// Stores the icon of `path`.
    pub fn put(&mut self, path: String, icon: String)
        requires
            old(self).wf(),
        ensures
            final(self).wf(),
            final(self).capacity() == old(self).capacity(),
            final(self).items() == put_items(old(self).items(), path@, icon@, old(self).capacity()),
    {
        proof {
            crate::cache::lemma_put_wf(self.items(), path@, icon@, self.capacity());
        }
        icon_store_put(&mut self.store, path, icon);
    }

    /// The icon of `path`: the cached one, else its placeholder, which is
    /// then cached.
    pub fn get_or_extract(&mut self, path: &str) -> (r: String)
        requires
            old(self).wf(),
        ensures
            final(self).wf(),
            final(self).capacity() == old(self).capacity(),
            key_pos(old(self).items(), path@) >= 0 ==> r@ == old(self).items()[key_pos(old(self).items(), path@)].1
                && final(self).items() == touched(old(self).items(), key_pos(old(self).items(), path@)),
            key_pos(old(self).items(), path@) < 0 ==> r@ == placeholder_icon(path@)
                && final(self).items() == put_items(old(self).items(), path@, r@, old(self).capacity()),
    {
        match self.get(path) {
            Some(icon) => icon,
            None => {
                let icon = Self::placeholder(path);
                self.put(path.to_owned(), icon.clone());
                icon
            },
        }
    }

    /// The placeholder icon reference of `path`.
    pub fn placeholder(path: &str) -> (r: String)
        ensures
            r@ == placeholder_icon(path@),
    {
        match extension_of(path) {
            Some(e) => joined("file-icon:", e.as_str()),
            None => "file-icon:unknown".to_owned(),
        }
    }

    /// Removes every icon.
    pub fn clear(&mut self)
        requires
            old(self).wf(),
        ensures
            final(self).wf(),
            final(self).capacity() == old(self).capacity(),
            final(self).items().len() == 0,
    {
        icon_store_clear(&mut self.store);
    }

    /// The number of cached icons.
    pub fn len(&self) -> (r: usize)
        ensures
            r == self.items().len(),
    {
        icon_store_len(&self.store)
    }

    /// Whether no icon is cached.
    pub fn is_empty(&self) -> (r: bool)
        ensures
            r == (self.items().len() == 0),
    {
        icon_store_len(&self.store) == 0
    }

    /// The generic icon name of a path, chosen by its extension.
    pub fn get_generic_icon(path: &str) -> (r: String)
        ensures
            r@ == generic_icon(path@),
    {
        let ext = match extension_of(path) {
            Some(e) => e,
            None => "unknown".to_owned(),
        };
        let e = chars_of(to_lower(ext.as_str()).as_str());
        let name = if is_word(&e, "txt") || is_word(&e, "md") || is_word(&e, "log") {
            "file-text"
        } else if is_word(&e, "pdf") {
            "file-pdf"
        } else if is_word(&e, "doc") || is_word(&e, "docx") {
            "file-word"
        } else if is_word(&e, "xls") || is_word(&e, "xlsx") {
            "file-excel"
        } else if is_word(&e, "ppt") || is_word(&e, "pptx") {
            "file-powerpoint"
        } else if is_word(&e, "jpg") || is_word(&e, "jpeg") || is_word(&e, "png") || is_word(&e, "gif") || is_word(&e, "bmp") || is_word(&e, "svg") || is_word(&e, "webp") {
            "file-image"
        } else if is_word(&e, "mp4") || is_word(&e, "avi") || is_word(&e, "mkv") || is_word(&e, "mov") || is_word(&e, "wmv") || is_word(&e, "flv") {
            "file-video"
        } else if is_word(&e, "mp3") || is_word(&e, "wav") || is_word(&e, "flac") || is_word(&e, "aac") || is_word(&e, "ogg") || is_word(&e, "wma") {
            "file-audio"
        } else if is_word(&e, "zip") || is_word(&e, "rar") || is_word(&e, "7z") || is_word(&e, "tar") || is_word(&e, "gz") || is_word(&e, "bz2") {
            "file-archive"
        } else if is_word(&e, "rs") || is_word(&e, "py") || is_word(&e, "js") || is_word(&e, "ts") || is_word(&e, "jsx") || is_word(&e, "tsx") || is_word(&e, "java") || is_word(&e, "c") || is_word(&e, "cpp") || is_word(&e, "h") || is_word(&e, "hpp") || is_word(&e, "html") || is_word(&e, "css") || is_word(&e, "json") || is_word(&e, "xml") || is_word(&e, "yaml") || is_word(&e, "yml") {
            "file-code"
        } else if is_word(&e, "exe") || is_word(&e, "msi") || is_word(&e, "bat") || is_word(&e, "cmd") || is_word(&e, "ps1") {
            "file-executable"
        } else {
            "file"
        };
        name.to_owned()
    }
}

/// The standard base64 form of `data` when it has at most
/// `MAX_ICON_SIZE_FOR_BASE64` bytes; `None` for larger data.
pub fn encode_to_base64_if_small(data: &[u8]) -> (r: Option<String>)
    ensures
        data@.len() <= MAX_ICON_SIZE_FOR_BASE64 ==> r is Some && r->0@ == base64_of(data@),
        data@.len() > MAX_ICON_SIZE_FOR_BASE64 ==> r is None,
{
    if data.len() <= MAX_ICON_SIZE_FOR_BASE64 {
        Some(base64_standard(data))
    } else {
        None
    }
}

} // verus!
