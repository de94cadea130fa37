//! Interned tokens, and the runtime type through which a host resolver
//! factory is registered.
use vstd::prelude::*;

verus! {

/// An interned token, held as its text.
pub struct Token {
    text: std::string::String,
}

impl View for Token {
    type V = Seq<char>;

    closed spec fn view(&self) -> Seq<char> {
        self.text@
    }
}

impl Token {
    /// The token with the given text.
    pub fn new(name: &str) -> (r: Token)
        ensures
            r@ == name@,
    {
        Token { text: name.to_owned() }
    }

    /// The token's text.
    pub fn text(&self) -> (r: &str)
        ensures
            r@ == self@,
    {
        self.text.as_str()
    }

    /// An independent token with the same text.
    pub fn copy(&self) -> (r: Token)
        ensures
            r@ == self@,
    {
        Token { text: self.text.clone() }
    }
}

/// A host callback as the foreign resolver machinery sees it: the address
/// of a function, or none.
pub type CallbackAddress = Option<usize>;

/// The host callbacks that make up an asset-resolver factory.
pub struct ResolverCallbacks {
    pub create_identifier_for_new_asset: CallbackAddress,
    pub create_identifier: CallbackAddress,
    pub open_asset: CallbackAddress,
    pub resolve_for_new_asset: CallbackAddress,
    pub resolve: CallbackAddress,
    pub get_extension: CallbackAddress,
    pub get_timestamp: CallbackAddress,
    pub close_writable_asset: CallbackAddress,
    pub open_writable_asset: CallbackAddress,
    pub write_writable_asset: CallbackAddress,
}

/// The number of callback slots the foreign factory registration takes.
pub const FACTORY_SLOTS: usize = 11;

/// The slots handed to the foreign registration, in its parameter order:
/// create-identifier-for-new-asset, create-identifier, open-asset, resolve,
/// resolve-for-new-asset, a slot the host never fills, get-extension,
/// get-timestamp, close-, open- and write-writable-asset. An absent
/// callback is the null address 0.
pub open spec fn factory_slots(c: ResolverCallbacks) -> Seq<usize> {
    seq![
        address_or_null(c.create_identifier_for_new_asset),
        address_or_null(c.create_identifier),
        address_or_null(c.open_asset),
        address_or_null(c.resolve),
        address_or_null(c.resolve_for_new_asset),
        0usize,
        address_or_null(c.get_extension),
        address_or_null(c.get_timestamp),
        address_or_null(c.close_writable_asset),
        address_or_null(c.open_writable_asset),
        address_or_null(c.write_writable_asset),
    ]
}

/// A callback's address, or the null address 0 when it is absent.
pub open spec fn address_or_null(c: CallbackAddress) -> usize {
    match c {
        Some(a) => a,
        None => 0,
    }
}

fn slot(c: CallbackAddress) -> (r: usize)
    ensures
        r == address_or_null(c),
{
    match c {
        Some(a) => a,
        None => 0,
    }
}

/// A foreign runtime type entry, declared by name.
pub struct Type {
    pub ptr: usize,
}

impl Type {
    /// The callback slots to register as this type's resolver factory, in
    /// the order the foreign registration takes them.
    pub fn set_factory(&self, callbacks: &ResolverCallbacks) -> (r: Vec<usize>)
        ensures
            r@ == factory_slots(*callbacks),
            r@.len() == FACTORY_SLOTS,
    {
        let mut slots: Vec<usize> = Vec::new();
        slots.push(slot(callbacks.create_identifier_for_new_asset));
        slots.push(slot(callbacks.create_identifier));
        slots.push(slot(callbacks.open_asset));
        slots.push(slot(callbacks.resolve));
        slots.push(slot(callbacks.resolve_for_new_asset));
        slots.push(0);
        slots.push(slot(callbacks.get_extension));
        slots.push(slot(callbacks.get_timestamp));
        slots.push(slot(callbacks.close_writable_asset));
        slots.push(slot(callbacks.open_writable_asset));
        slots.push(slot(callbacks.write_writable_asset));
        assert(slots@ =~= factory_slots(*callbacks));
        slots
    }
}

} // verus!
