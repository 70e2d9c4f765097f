//! The vendor-parameter extractor and the mapping it produces.
//!
//! The generic header block carries an ordered array of key/value span
//! pairs whose keys need not be unique.  Extraction decodes each side
//! through the string-span adapter, silently drops every pair where either
//! side is absent or undecodable, and collapses the rest into a mapping in
//! storage order, later duplicate keys overwriting earlier ones.

use vstd::prelude::*;
use crate::message::{AptPair, MrcpMessage, GENERIC_HEADER_VENDOR_SPECIFIC_PARAMS};
use crate::section::{
    inline_mrcp_generic_header_get, inline_mrcp_generic_header_property_check,
    spec_generic_block, spec_generic_field_present,
};
use crate::span::{apt_str_to_string, spec_span_text};

verus! {

/// The mapping that a vendor-parameter array collapses to: pairs are taken
/// in storage order, a pair where either side fails decoding contributes
/// nothing, and a later pair overwrites an earlier one with the same key.
pub open spec fn spec_vendor_map(pairs: Seq<AptPair>) -> Map<Seq<char>, Seq<char>>
    decreases pairs.len(),
{
    if pairs.len() == 0 {
        Map::empty()
    } else {
        let collapsed = spec_vendor_map(pairs.drop_last());
        let name = spec_span_text(pairs.last().name);
        let value = spec_span_text(pairs.last().value);
        if name is Some && value is Some {
            collapsed.insert(name->0, value->0)
        } else {
            collapsed
        }
    }
}

/// The mapping of text keys to text values, as extracted from a message's
/// vendor-specific parameters.  Pairs are stored in the order they were
/// inserted; the mapping view resolves duplicate keys to the latest value.
#[derive(Debug)]
pub struct VendorParams {
    pairs: Vec<(String, String)>,
}

/// The mapping an insertion-ordered pair list stands for: later entries
/// overwrite earlier ones with the same key.
pub open spec fn spec_assoc_map(s: Seq<(String, String)>) -> Map<Seq<char>, Seq<char>>
    decreases s.len(),
{
    if s.len() == 0 {
        Map::empty()
    } else {
        spec_assoc_map(s.drop_last()).insert(s.last().0@, s.last().1@)
    }
}

impl View for VendorParams {
    type V = Map<Seq<char>, Seq<char>>;

    closed spec fn view(&self) -> Map<Seq<char>, Seq<char>> {
        spec_assoc_map(self.pairs@)
    }
}

impl VendorParams {
    /// An empty mapping.
    pub fn new() -> (r: VendorParams)
        ensures
            r@ == Map::<Seq<char>, Seq<char>>::empty(),
    {
        VendorParams { pairs: Vec::new() }
    }

    /// Binds `key` to `value`, overwriting any earlier binding of the key.
    pub fn insert(&mut self, key: String, value: String)
        ensures
            final(self)@ == old(self)@.insert(key@, value@),
    {
        let ghost before = self.pairs@;
        self.pairs.push((key, value));
        proof {
            assert(self.pairs@.drop_last() =~= before);
        }
    }

    /// Looks the key up: the bound value where the mapping contains the
    /// key, `None` otherwise.
    pub fn get(&self, key: &String) -> (r: Option<&String>)
        ensures
            r is Some <==> self@.contains_key(key@),
            r is Some ==> r->0@ == self@[key@],
    {
        let n = self.pairs.len();
        let mut i: usize = n;
        proof {
            assert(self.pairs@.take(n as int) =~= self.pairs@);
        }
        loop
            invariant
                i <= n,
                n == self.pairs@.len(),
                self@.contains_key(key@) == spec_assoc_map(self.pairs@.take(i as int)).contains_key(
                    key@,
                ),
                self@.contains_key(key@) ==> self@[key@] == spec_assoc_map(
                    self.pairs@.take(i as int),
                )[key@],
            decreases i,
        {
            if i == 0 {
                proof {
                    assert(self.pairs@.take(0) =~= Seq::<(String, String)>::empty());
                }
                return None;
            }
            let entry = &self.pairs[i - 1];
            proof {
                assert(self.pairs@.take(i as int).drop_last() =~= self.pairs@.take(i - 1));
                assert(self.pairs@.take(i as int).last() == self.pairs@[i - 1]);
            }
            if entry.0.eq(key) {
                return Some(&entry.1);
            }
            i = i - 1;
        }
    }

    /// Whether the mapping binds no key at all.
    pub fn is_empty(&self) -> (r: bool)
        ensures
            r == (self@ == Map::<Seq<char>, Seq<char>>::empty()),
    {
        let r = self.pairs.len() == 0;
        proof {
            if self.pairs@.len() > 0 {
                assert(self@.contains_key(self.pairs@.last().0@));
                assert(!Map::<Seq<char>, Seq<char>>::empty().contains_key(
                    self.pairs@.last().0@,
                ));
            }
        }
        r
    }
}

/// The vendor-parameter mapping a message carries: empty for a null
/// message, for an absent vendor-parameters field and for a null generic
/// block; otherwise the collapse of the block's pair array.
pub open spec fn spec_vendor_params_of(m: MrcpMessage) -> Map<Seq<char>, Seq<char>> {
    if spec_generic_field_present(m, GENERIC_HEADER_VENDOR_SPECIFIC_PARAMS as int) {
        match spec_generic_block(m) {
            Some(g) => spec_vendor_map(g.vendor_specific_params@),
            None => Map::empty(),
        }
    } else {
        Map::empty()
    }
}

/// Walks the generic block's vendor-parameter array and materializes it
/// into a mapping; a null message yields an empty mapping.
pub fn extract_vendor_specific_parameters(request: Option<&MrcpMessage>) -> (r: VendorParams)
    ensures
        match request {
            None => r@ == Map::<Seq<char>, Seq<char>>::empty(),
            Some(m) => r@ == spec_vendor_params_of(*m),
        },
{
    let message = match request {
        None => { return VendorParams::new(); },
        Some(m) => m,
    };
    let mut params = VendorParams::new();
    if inline_mrcp_generic_header_property_check(
        message,
        GENERIC_HEADER_VENDOR_SPECIFIC_PARAMS,
    ) {
        match inline_mrcp_generic_header_get(message) {
            None => {},
            Some(h) => {
                let ghost pairs = h.vendor_specific_params@;
                let n = h.vendor_specific_params.len();
                let mut i: usize = 0;
                while i < n
                    invariant
                        i <= n,
                        n == pairs.len(),
                        pairs == h.vendor_specific_params@,
                        params@ == spec_vendor_map(pairs.take(i as int)),
                    decreases n - i,
                {
                    let pair = &h.vendor_specific_params[i];
                    proof {
                        assert(pairs.take(i + 1).drop_last() =~= pairs.take(i as int));
                        assert(pairs.take(i + 1).last() == pairs[i as int]);
                    }
                    let key = apt_str_to_string(&pair.name);
                    let value = apt_str_to_string(&pair.value);
                    match (key, value) {
                        (Some(key), Some(value)) => { params.insert(key, value); },
                        _ => {},
                    }
                    i = i + 1;
                }
                proof {
                    assert(pairs.take(n as int) =~= pairs);
                }
            },
        }
    }
    params
}

/// A pair whose two sides both decode extends the collapsed mapping by
/// exactly that binding, overwriting any earlier binding of the key.
pub proof fn lemma_vendor_pair_binds(pairs: Seq<AptPair>, p: AptPair)
    requires
        spec_span_text(p.name) is Some,
        spec_span_text(p.value) is Some,
    ensures
        spec_vendor_map(pairs.push(p)) == spec_vendor_map(pairs).insert(
            spec_span_text(p.name)->0,
            spec_span_text(p.value)->0,
        ),
{
    assert(pairs.push(p).drop_last() =~= pairs);
}

/// A pair where either side fails decoding is silently dropped: it leaves
/// the collapsed mapping untouched.
pub proof fn lemma_vendor_pair_dropped(pairs: Seq<AptPair>, p: AptPair)
    requires
        spec_span_text(p.name) is None || spec_span_text(p.value) is None,
    ensures
        spec_vendor_map(pairs.push(p)) == spec_vendor_map(pairs),
{
    assert(pairs.push(p).drop_last() =~= pairs);
}

} // verus!
