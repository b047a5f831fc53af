//! Initialization options: the auth token, the timeline metadata seed,
//! the server endpoint, the residency-cache capacity and the attribute
//! handler table.

use vstd::prelude::*;

use crate::attr_handlers::spec_default_handler_table;
use crate::attr_handlers::AttributeHandler;
use crate::ingest::kvs_view;
use crate::keys::normalize_timeline_key;
use crate::keys::spec_prefixed;
use crate::types::AttrVal;
use crate::types::AttrValV;

verus! {

/// Whether `c` is an ASCII hexadecimal digit.
pub open spec fn is_hex_digit(c: char) -> bool {
    ('0' <= c && c <= '9') || ('a' <= c && c <= 'f') || ('A' <= c && c <= 'F')
}

/// The numeric value of an ASCII hexadecimal digit.
pub open spec fn hex_digit_val(c: char) -> int {
    if '0' <= c && c <= '9' {
        c as int - '0' as int
    } else if 'a' <= c && c <= 'f' {
        c as int - 'a' as int + 10
    } else {
        c as int - 'A' as int + 10
    }
}

/// Whether `s` is a well-formed hexadecimal string: an even number of
/// hexadecimal digits.
pub open spec fn spec_hex_ok(s: Seq<char>) -> bool {
    s.len() % 2 == 0 && forall|i: int| 0 <= i < s.len() ==> is_hex_digit(#[trigger] s[i])
}

/// The bytes a well-formed hexadecimal string decodes to: two digits
/// for each byte, high digit first.
pub open spec fn spec_hex_decode(s: Seq<char>) -> Seq<u8> {
    Seq::new(s.len() / 2, |i: int| (16 * hex_digit_val(s[2 * i]) + hex_digit_val(s[2 * i + 1])) as u8)
}

/// Relies on `hex::decode`: it accepts exactly the even-length strings
/// of hexadecimal digits (either case) and decodes two digits into one
/// byte, high digit first; any other input is an error.
#[verifier::external_body]
fn hex_decode(s: &str) -> (r: Option<Vec<u8>>)
    ensures
        r is Some <==> spec_hex_ok(s@),
        match r {
            Some(b) => b@ == spec_hex_decode(s@),
            None => true,
        },
{
    hex::decode(s).ok()
}

/// Initialization options.
pub struct Options {
    /// The auth token, decoded to bytes; `None` until one is set.
    pub auth: Option<Vec<u8>>,
    /// Metadata pairs for the root timeline, keys in timeline scope.
    pub metadata: Vec<(String, AttrVal)>,
    /// The ingest server's address, as `host:port`.
    pub server_addr: String,
    /// The capacity of the timeline residency cache.
    pub lru_cache_size: usize,
    /// The attribute handler table.
    pub attribute_handlers: Vec<AttributeHandler>,
}

impl Options {
    /// The default options: no auth token, no extra metadata, the
    /// local ingest endpoint, a residency cache of 64 timelines, and
    /// the default handler table.
    pub fn new() -> (r: Options)
        ensures
            r.auth is None,
            r.metadata@ =~= Seq::<(String, AttrVal)>::empty(),
            r.server_addr@ == "127.0.0.1:14182"@,
            r.lru_cache_size == 64,
            spec_default_handler_table(r.attribute_handlers@),
    {
        Options {
            auth: None,
            metadata: Vec::new(),
            server_addr: String::from_str("127.0.0.1:14182"),
            lru_cache_size: 64,
            attribute_handlers: AttributeHandler::default_handlers(),
        }
    }

    /// Set the auth token from its hexadecimal text form. A malformed
    /// token leaves no token set.
    pub fn set_auth(&mut self, auth: &str)
        ensures
            spec_hex_ok(auth@) ==> match final(self).auth {
                Some(b) => b@ == spec_hex_decode(auth@),
                None => false,
            },
            !spec_hex_ok(auth@) ==> final(self).auth is None,
            final(self).metadata == old(self).metadata,
            final(self).server_addr == old(self).server_addr,
            final(self).lru_cache_size == old(self).lru_cache_size,
            final(self).attribute_handlers == old(self).attribute_handlers,
    {
        self.auth = hex_decode(auth);
    }

    /// A chainable version of `set_auth`.
    pub fn with_auth(self, auth: &str) -> (r: Self)
        ensures
            spec_hex_ok(auth@) ==> match r.auth {
                Some(b) => b@ == spec_hex_decode(auth@),
                None => false,
            },
            !spec_hex_ok(auth@) ==> r.auth is None,
            r.metadata == self.metadata,
            r.server_addr == self.server_addr,
            r.lru_cache_size == self.lru_cache_size,
            r.attribute_handlers == self.attribute_handlers,
    {
        let mut this = self;
        this.set_auth(auth);
        this
    }

    /// Set the capacity of the timeline residency cache.
    pub fn set_lru_cache_size(&mut self, size: usize)
        ensures
            final(self).lru_cache_size == size,
            final(self).auth == old(self).auth,
            final(self).metadata == old(self).metadata,
            final(self).server_addr == old(self).server_addr,
            final(self).attribute_handlers == old(self).attribute_handlers,
    {
        self.lru_cache_size = size;
    }

    /// A chainable version of `set_lru_cache_size`.
    pub fn with_lru_cache_size(self, size: usize) -> (r: Self)
        ensures
            r.lru_cache_size == size,
            r.auth == self.auth,
            r.metadata == self.metadata,
            r.server_addr == self.server_addr,
            r.attribute_handlers == self.attribute_handlers,
    {
        let mut this = self;
        this.set_lru_cache_size(size);
        this
    }

    /// Replace the attribute handler table.
    pub fn set_attr_handlers(&mut self, attribute_handlers: Vec<AttributeHandler>)
        ensures
            final(self).attribute_handlers == attribute_handlers,
            final(self).auth == old(self).auth,
            final(self).metadata == old(self).metadata,
            final(self).server_addr == old(self).server_addr,
            final(self).lru_cache_size == old(self).lru_cache_size,
    {
        self.attribute_handlers = attribute_handlers;
    }

    /// A chainable version of `set_attr_handlers`.
    pub fn with_attr_handlers(self, attribute_handlers: Vec<AttributeHandler>) -> (r: Self)
        ensures
            r.attribute_handlers == attribute_handlers,
            r.auth == self.auth,
            r.metadata == self.metadata,
            r.server_addr == self.server_addr,
            r.lru_cache_size == self.lru_cache_size,
    {
        let mut this = self;
        this.set_attr_handlers(attribute_handlers);
        this
    }

    /// Set the name of the root timeline.
    pub fn set_name(&mut self, name: &str)
        ensures
            kvs_view(final(self).metadata@) == kvs_view(old(self).metadata@) + seq![
                ("timeline.name"@, AttrValV::String(name@)),
            ],
            final(self).auth == old(self).auth,
            final(self).server_addr == old(self).server_addr,
            final(self).lru_cache_size == old(self).lru_cache_size,
            final(self).attribute_handlers == old(self).attribute_handlers,
    {
        self.metadata.push(
            (String::from_str("timeline.name"), AttrVal::String(String::from_str(name))),
        );
        proof {
            assert(kvs_view(self.metadata@) =~= kvs_view(old(self).metadata@) + seq![
                ("timeline.name"@, AttrValV::String(name@)),
            ]);
        }
    }

    /// A chainable version of `set_name`.
    pub fn with_name(self, name: &str) -> (r: Self)
        ensures
            kvs_view(r.metadata@) == kvs_view(self.metadata@) + seq![
                ("timeline.name"@, AttrValV::String(name@)),
            ],
            r.auth == self.auth,
            r.server_addr == self.server_addr,
            r.lru_cache_size == self.lru_cache_size,
            r.attribute_handlers == self.attribute_handlers,
    {
        let mut this = self;
        this.set_name(name);
        this
    }

    /// Add a metadata pair to the root timeline; the key is prefixed
    /// into timeline scope unless it already is.
    pub fn add_metadata(&mut self, key: &String, value: AttrVal)
        ensures
            kvs_view(final(self).metadata@) == kvs_view(old(self).metadata@) + seq![
                (spec_prefixed(key@, "timeline."@), value@),
            ],
            final(self).auth == old(self).auth,
            final(self).server_addr == old(self).server_addr,
            final(self).lru_cache_size == old(self).lru_cache_size,
            final(self).attribute_handlers == old(self).attribute_handlers,
    {
        let nk = normalize_timeline_key(key);
        self.metadata.push((nk, value));
        proof {
            assert(kvs_view(self.metadata@) =~= kvs_view(old(self).metadata@) + seq![
                (spec_prefixed(key@, "timeline."@), value@),
            ]);
        }
    }

    /// A chainable version of `add_metadata`.
    pub fn with_metadata(self, key: &String, value: AttrVal) -> (r: Self)
        ensures
            kvs_view(r.metadata@) == kvs_view(self.metadata@) + seq![
                (spec_prefixed(key@, "timeline."@), value@),
            ],
            r.auth == self.auth,
            r.server_addr == self.server_addr,
            r.lru_cache_size == self.lru_cache_size,
            r.attribute_handlers == self.attribute_handlers,
    {
        let mut this = self;
        this.add_metadata(key, value);
        this
    }

    /// Set the ingest server's address, as `host:port`.
    pub fn set_server_address(&mut self, addr: String)
        ensures
            final(self).server_addr@ == addr@,
            final(self).auth == old(self).auth,
            final(self).metadata == old(self).metadata,
            final(self).lru_cache_size == old(self).lru_cache_size,
            final(self).attribute_handlers == old(self).attribute_handlers,
    {
        self.server_addr = addr;
    }

    /// A chainable version of `set_server_address`.
    pub fn with_server_address(self, addr: String) -> (r: Self)
        ensures
            r.server_addr@ == addr@,
            r.auth == self.auth,
            r.metadata == self.metadata,
            r.lru_cache_size == self.lru_cache_size,
            r.attribute_handlers == self.attribute_handlers,
    {
        let mut this = self;
        this.set_server_address(addr);
        this
    }
}

impl Default for Options {
    /// The same options as `Options::new`.
    fn default() -> (r: Options)
        ensures
            r.auth is None,
            r.metadata@ =~= Seq::<(String, AttrVal)>::empty(),
            r.server_addr@ == "127.0.0.1:14182"@,
            r.lru_cache_size == 64,
            spec_default_handler_table(r.attribute_handlers@),
    {
        Options::new()
    }
}

} // verus!
