//! The font registry: fonts by name, and names by the one-character identifiers that
//! the font commands use.

use vstd::prelude::*;
use crate::error::{ZplError, ZplErrorView, ZplResult};
use crate::text::opt_chars;

verus! {

/// A parsed font of the `ab_glyph` crate. Its contents are not looked into here.
#[verifier::external_type_specification]
#[verifier::external_body]
pub struct ExFontArc(ab_glyph::FontArc);

/// Whether `ab_glyph::FontArc::try_from_vec` accepts the bytes as a TrueType or
/// OpenType font.
pub uninterp spec fn is_font_data(bytes: Seq<u8>) -> bool;

/// Parses font data with `ab_glyph::FontArc::try_from_vec`. The contract claims only
/// that whether the data is accepted depends on the bytes alone.
#[verifier::external_body]
fn parse_font(bytes: &[u8]) -> (font: Option<ab_glyph::FontArc>)
    ensures
        font is Some <==> is_font_data(bytes@),
{
    ab_glyph::FontArc::try_from_vec(bytes.to_vec()).ok()
}

/// The number of font identifiers: `A..Z` and `0..9`.
pub const FONT_SLOTS: usize = 36;

/// The place of a font identifier in the order `A..Z`, `0..9`, if it is one.
pub open spec fn slot_of(id: char) -> Option<int> {
    if 'A' as u32 <= id as u32 <= 'Z' as u32 {
        Some(id as u32 - 'A' as u32)
    } else if '0' as u32 <= id as u32 <= '9' as u32 {
        Some(id as u32 - '0' as u32 + 26)
    } else {
        None
    }
}

/// Whether `id` is an identifier between `from` and `to` in the order `A..Z`, `0..9`.
/// Nothing lies in a range whose ends are not identifiers or stand the wrong way round.
pub open spec fn in_font_range(id: char, from: char, to: char) -> bool {
    match (slot_of(from), slot_of(id), slot_of(to)) {
        (Some(start), Some(slot), Some(end)) => start <= slot <= end,
        _ => false,
    }
}

/// The place of a font identifier in the order `A..Z`, `0..9`, if it is one.
pub fn font_slot(id: char) -> (slot: Option<usize>)
    ensures
        match slot {
            Some(i) => slot_of(id) == Some(i as int) && i < FONT_SLOTS,
            None => slot_of(id) is None,
        },
{
    let code = id as u32;
    if 'A' as u32 <= code && code <= 'Z' as u32 {
        Some((code - 'A' as u32) as usize)
    } else if '0' as u32 <= code && code <= '9' as u32 {
        Some((code - '0' as u32 + 26) as usize)
    } else {
        None
    }
}

/// The number of places that a registry of `given` places has once there is one for
/// each identifier.
pub open spec fn most_slots(given: int) -> int {
    if given > FONT_SLOTS {
        given
    } else {
        FONT_SLOTS as int
    }
}

/// The font of the first of the first `n` entries that has the given name.
pub open spec fn lookup(entries: Seq<(String, ab_glyph::FontArc)>, name: Seq<char>, n: nat) -> Option<
    ab_glyph::FontArc,
>
    decreases n,
{
    if n == 0 {
        None
    } else {
        match lookup(entries, name, (n - 1) as nat) {
            Some(font) => Some(font),
            None => if entries[n - 1].0@ == name {
                Some(entries[n - 1].1)
            } else {
                None
            },
        }
    }
}

/// A match among the first `n` entries is the match among any more entries.
pub proof fn lemma_lookup_stable(
    entries: Seq<(String, ab_glyph::FontArc)>,
    name: Seq<char>,
    n: nat,
    m: nat,
)
    requires
        n <= m,
        lookup(entries, name, n) is Some,
    ensures
        lookup(entries, name, m) == lookup(entries, name, n),
    decreases m,
{
    if n < m {
        lemma_lookup_stable(entries, name, n, (m - 1) as nat);
    }
}

/// Lookups only depend on the entries they look at.
pub proof fn lemma_lookup_agrees(
    a: Seq<(String, ab_glyph::FontArc)>,
    b: Seq<(String, ab_glyph::FontArc)>,
    name: Seq<char>,
    n: nat,
)
    requires
        n <= a.len(),
        n <= b.len(),
        forall|i: int| 0 <= i < n ==> a[i].0@ == b[i].0@ && (a[i].0@ == name ==> a[i].1 == b[i].1),
    ensures
        lookup(a, name, n) == lookup(b, name, n),
    decreases n,
{
    if n > 0 {
        lemma_lookup_agrees(a, b, name, (n - 1) as nat);
    }
}

/// Fonts by name, and names by font identifier.
#[derive(Debug, Clone)]
pub struct FontManager {
    /// For each identifier, in the order `A..Z`, `0..9`, the name of its font.
    font_map: Vec<Option<String>>,
    /// The registered fonts with their names. A name is looked up from the front.
    font_index: Vec<(String, ab_glyph::FontArc)>,
}

impl FontManager {
    /// The name of the font that is assigned to an identifier.
    pub closed spec fn assigned(&self, id: char) -> Option<Seq<char>> {
        match slot_of(id) {
            Some(slot) => if slot < self.font_map@.len() {
                opt_chars(self.font_map@[slot])
            } else {
                None
            },
            None => None,
        }
    }

    /// The font that is registered under a name.
    pub closed spec fn registered(&self, name: Seq<char>) -> Option<ab_glyph::FontArc> {
        lookup(self.font_index@, name, self.font_index@.len())
    }

    /// The font for an identifier given as text: the text must be a single identifier
    /// with a name assigned to it, and a font must be registered under that name.
    pub open spec fn font_for(&self, id: Seq<char>) -> Option<ab_glyph::FontArc> {
        if id.len() == 1 {
            match self.assigned(id[0]) {
                Some(name) => self.registered(name),
                None => None,
            }
        } else {
            None
        }
    }

    /// A registry without fonts.
    pub fn new() -> (fonts: Self)
        ensures
            forall|id: char| fonts.assigned(id) is None,
            forall|name: Seq<char>| fonts.registered(name) is None,
    {
        let mut font_map: Vec<Option<String>> = Vec::new();
        let mut i: usize = 0;
        while i < FONT_SLOTS
            invariant
                i <= FONT_SLOTS,
                font_map@.len() == i,
                forall|j: int| 0 <= j < i ==> font_map@[j] is None,
            decreases FONT_SLOTS - i,
        {
            font_map.push(None);
            i += 1;
        }
        FontManager { font_map, font_index: Vec::new() }
    }

    /// The place of the first registered font with this name.
    fn find(&self, name: &String) -> (found: Option<usize>)
        ensures
            match found {
                Some(i) => i < self.font_index@.len() && self.font_index@[i as int].0@ == name@
                    && lookup(self.font_index@, name@, i as nat) is None && self.registered(name@)
                    == Some(self.font_index@[i as int].1),
                None => self.registered(name@) is None,
            },
    {
        let mut i: usize = 0;
        while i < self.font_index.len()
            invariant
                i <= self.font_index@.len(),
                lookup(self.font_index@, name@, i as nat) is None,
            decreases self.font_index@.len() - i,
        {
            if self.font_index[i].0 == *name {
                proof {
                    lemma_lookup_stable(
                        self.font_index@,
                        name@,
                        (i + 1) as nat,
                        self.font_index@.len(),
                    );
                }
                return Some(i);
            }
            i += 1;
        }
        None
    }

    /// The font for an identifier given as text, such as `"0"` or `"A"`.
    pub fn get_font(&self, name: &str) -> (font: Option<&ab_glyph::FontArc>)
        ensures
            match font {
                Some(f) => self.font_for(name@) == Some(*f),
                None => self.font_for(name@) is None,
            },
    {
        let id = crate::text::chars_of(name);
        if id.len() != 1 {
            return None;
        }
        let slot = match font_slot(id[0]) {
            Some(slot) => slot,
            None => {
                return None;
            },
        };
        if slot >= self.font_map.len() {
            return None;
        }
        match &self.font_map[slot] {
            Some(font_name) => match self.find(font_name) {
                Some(i) => Some(&self.font_index[i].1),
                None => None,
            },
            None => None,
        }
    }

    /// Registers a font under `name`, in place of any font of that name.
    fn store(&mut self, name: String, font: ab_glyph::FontArc)
        ensures
            final(self).registered(name@) == Some(font),
            forall|other: Seq<char>|
                other != name@ ==> final(self).registered(other) == old(self).registered(other),
            forall|id: char| final(self).assigned(id) == old(self).assigned(id),
    {
        let ghost before = self.font_index@;
        let ghost key = name@;
        match self.find(&name) {
            Some(i) => {
                self.font_index.set(i, (name, font));
                let ghost now = self.font_index@;
                proof {
                    lemma_lookup_agrees(before, now, key, i as nat);
                    lemma_lookup_stable(now, key, (i + 1) as nat, now.len());
                    assert forall|other: Seq<char>| other != key implies lookup(
                        now,
                        other,
                        now.len(),
                    ) == lookup(before, other, before.len()) by {
                        lemma_lookup_agrees(before, now, other, now.len());
                    }
                }
            },
            None => {
                self.font_index.push((name, font));
                let ghost now = self.font_index@;
                proof {
                    lemma_lookup_agrees(before, now, key, before.len());
                    assert forall|other: Seq<char>| other != key implies lookup(
                        now,
                        other,
                        now.len(),
                    ) == lookup(before, other, before.len()) by {
                        lemma_lookup_agrees(before, now, other, before.len());
                    }
                }
            },
        }
    }

    /// Assigns the font named `name` to the identifiers from `from` to `to`.
    fn assign_font(&mut self, name: &str, from: char, to: char)
        ensures
            forall|id: char|
                final(self).assigned(id) == if in_font_range(id, from, to) {
                    Some(name@)
                } else {
                    old(self).assigned(id)
                },
            forall|other: Seq<char>| final(self).registered(other) == old(self).registered(other),
    {
        let (start, end) = match (font_slot(from), font_slot(to)) {
            (Some(start), Some(end)) => (start, end),
            _ => {
                return ;
            },
        };
        if start > end {
            return ;
        }
        let ghost given = self.font_map@;
        while self.font_map.len() < FONT_SLOTS
            invariant
                given == old(self).font_map@,
                given.len() <= self.font_map@.len() <= most_slots(given.len() as int),
                self.font_index@ == old(self).font_index@,
                forall|j: int| 0 <= j < given.len() ==> self.font_map@[j] == given[j],
                forall|j: int| given.len() <= j < self.font_map@.len() ==> self.font_map@[j] is None,
            decreases FONT_SLOTS - self.font_map@.len(),
        {
            self.font_map.push(None);
        }
        let ghost before = self.font_map@;
        let mut slot = start;
        while slot <= end
            invariant
                start <= slot <= end + 1,
                end < FONT_SLOTS,
                self.font_map@.len() == before.len(),
                before.len() >= FONT_SLOTS,
                self.font_index@ == old(self).font_index@,
                forall|j: int|
                    0 <= j < before.len() ==> opt_chars(#[trigger] self.font_map@[j]) == if start
                        <= j < slot {
                        Some(name@)
                    } else {
                        opt_chars(before[j])
                    },
            decreases end + 1 - slot,
        {
            self.font_map.set(slot, Some(name.to_owned()));
            slot += 1;
        }
    }

    /// Registers a TrueType or OpenType font under `name` and assigns it to the font
    /// identifiers from `from` to `to`, in the order `A..Z`, `0..9`.
    ///
    /// Fails with a font error exactly when the bytes are not a font; the registry is then
    /// unchanged. A range whose ends are not identifiers, or stand the wrong way round,
    /// assigns nothing, but the font is still registered under its name.
    pub fn register_font(&mut self, name: &str, bytes: &[u8], from: char, to: char) -> (r: ZplResult<
        (),
    >)
        ensures
            r is Ok <==> is_font_data(bytes@),
            r matches Err(e) ==> {
                &&& e@ == ZplErrorView::FontError("Invalid font data"@)
                &&& forall|id: char| final(self).assigned(id) == old(self).assigned(id)
                &&& forall|other: Seq<char>|
                    final(self).registered(other) == old(self).registered(other)
            },
            r is Ok ==> {
                &&& final(self).registered(name@) is Some
                &&& forall|other: Seq<char>|
                    other != name@ ==> final(self).registered(other) == old(self).registered(
                        other,
                    )
                &&& forall|id: char|
                    final(self).assigned(id) == if in_font_range(id, from, to) {
                        Some(name@)
                    } else {
                        old(self).assigned(id)
                    }
            },
    {
        match parse_font(bytes) {
            Some(font) => {
                self.store(name.to_owned(), font);
                self.assign_font(name, from, to);
                Ok(())
            },
            None => Err(ZplError::FontError("Invalid font data".to_owned())),
        }
    }
}

/// The number of font families that are tried for the default font.
pub const DEFAULT_FAMILIES: usize = 6;

/// The name of the default font family at a place in the order of preference.
pub open spec fn default_family_name(index: int) -> Seq<char> {
    if index == 0 {
        "Swiss 721"@
    } else if index == 1 {
        "Helvetica"@
    } else if index == 2 {
        "Roboto"@
    } else if index == 3 {
        "Liberation Sans"@
    } else if index == 4 {
        "DejaVu Sans"@
    } else {
        "Arial"@
    }
}

/// The font families that make a good default font, in order of preference. The first
/// of them that a system has is the one to register with [`with_default_font`].
pub fn default_family(index: usize) -> (family: Option<&'static str>)
    ensures
        family is Some <==> index < DEFAULT_FAMILIES,
        family matches Some(name) ==> name@ == default_family_name(index as int),
{
    if index == 0 {
        Some("Swiss 721")
    } else if index == 1 {
        Some("Helvetica")
    } else if index == 2 {
        Some("Roboto")
    } else if index == 3 {
        Some("Liberation Sans")
    } else if index == 4 {
        Some("DejaVu Sans")
    } else if index == 5 {
        Some("Arial")
    } else {
        None
    }
}

/// A registry with one font for every identifier. Data that is no font gives a registry
/// without fonts.
pub fn with_default_font(family: &str, data: &[u8]) -> (fonts: FontManager)
    ensures
        is_font_data(data@) ==> fonts.registered(family@) is Some,
        forall|id: char|
            fonts.assigned(id) == if is_font_data(data@) && slot_of(id) is Some {
                Some(family@)
            } else {
                None
            },
        forall|name: Seq<char>|
            !is_font_data(data@) || name != family@ ==> fonts.registered(name) is None,
{
    let mut fonts = FontManager::new();
    let _ = fonts.register_font(family, data, 'A', '9');
    fonts
}

} // verus!
