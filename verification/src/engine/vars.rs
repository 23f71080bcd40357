//! Template variables: placeholders of the form `{{name}}` in text and barcode data are
//! replaced by the values that the caller supplies.

use vstd::prelude::*;
use crate::text::{chars_of, string_of};

verus! {

/// Whether `pattern` stands in `s` at position `i`.
pub open spec fn occurs_at(s: Seq<char>, i: int, pattern: Seq<char>) -> bool {
    0 <= i && i + pattern.len() <= s.len() && s.subrange(i, i + pattern.len()) == pattern
}

/// `s[i..]` with every occurrence of `pattern` replaced by `with`. Occurrences are found
/// from left to right and do not overlap. An empty pattern occurs nowhere.
pub open spec fn replaced_from(s: Seq<char>, i: int, pattern: Seq<char>, with: Seq<char>) -> Seq<
    char,
>
    decreases s.len() - i,
{
    if i < 0 || i >= s.len() {
        Seq::empty()
    } else if pattern.len() > 0 && occurs_at(s, i, pattern) {
        with + replaced_from(s, i + pattern.len(), pattern, with)
    } else {
        seq![s[i]] + replaced_from(s, i + 1, pattern, with)
    }
}

/// `s` with every occurrence of `pattern` replaced by `with`.
pub open spec fn replaced(s: Seq<char>, pattern: Seq<char>, with: Seq<char>) -> Seq<char> {
    replaced_from(s, 0, pattern, with)
}

/// The placeholder for a variable: its name between double braces.
pub open spec fn placeholder(name: Seq<char>) -> Seq<char> {
    seq!['{', '{'] + name + seq!['}', '}']
}

/// The text after the first `n` variables have been substituted, one after the other.
/// Placeholders of names that are not among the variables stay as they are.
pub open spec fn substituted_upto(
    text: Seq<char>,
    variables: Seq<(Seq<char>, Seq<char>)>,
    n: nat,
) -> Seq<char>
    decreases n,
{
    if n == 0 {
        text
    } else {
        replaced(
            substituted_upto(text, variables, (n - 1) as nat),
            placeholder(variables[n - 1].0),
            variables[n - 1].1,
        )
    }
}

/// The text after all variables have been substituted, in their order.
pub open spec fn substituted(text: Seq<char>, variables: Seq<(Seq<char>, Seq<char>)>) -> Seq<char> {
    substituted_upto(text, variables, variables.len())
}

/// Where the pattern occurs nowhere, replacing changes nothing.
pub proof fn lemma_replaced_without_occurrence(s: Seq<char>, i: int, pattern: Seq<char>, with: Seq<char>)
    requires
        0 <= i <= s.len(),
        forall|j: int| i <= j < s.len() ==> !occurs_at(s, j, pattern),
    ensures
        replaced_from(s, i, pattern, with) == s.subrange(i, s.len() as int),
    decreases s.len() - i,
{
    if i < s.len() {
        lemma_replaced_without_occurrence(s, i + 1, pattern, with);
    }
}

/// **Unknown placeholders stay.** A text in which the placeholder of no variable occurs
/// comes out of the substitution as it went in.
pub proof fn lemma_unmatched_text_is_left_verbatim(
    text: Seq<char>,
    variables: Seq<(Seq<char>, Seq<char>)>,
    n: nat,
)
    requires
        n <= variables.len(),
        forall|k: int, j: int|
            0 <= k < variables.len() && 0 <= j < text.len() ==> !#[trigger] occurs_at(
                text,
                j,
                placeholder(variables[k].0),
            ),
    ensures
        substituted_upto(text, variables, n) == text,
    decreases n,
{
    if n > 0 {
        lemma_unmatched_text_is_left_verbatim(text, variables, (n - 1) as nat);
        lemma_replaced_without_occurrence(
            text,
            0,
            placeholder(variables[n - 1].0),
            variables[n - 1].1,
        );
    }
}

/// Whether some variable has the given name.
pub open spec fn has_name(variables: Seq<(Seq<char>, Seq<char>)>, name: Seq<char>) -> bool {
    exists|i: int| 0 <= i < variables.len() && (#[trigger] variables[i]).0 == name
}

/// Whether `i` is the first place of a variable with the given name.
pub open spec fn is_first_place(variables: Seq<(Seq<char>, Seq<char>)>, name: Seq<char>, i: int) -> bool {
    &&& 0 <= i < variables.len()
    &&& variables[i].0 == name
    &&& forall|j: int| 0 <= j < i ==> (#[trigger] variables[j]).0 != name
}

/// The first place of a variable with the given name.
pub open spec fn place_of(variables: Seq<(Seq<char>, Seq<char>)>, name: Seq<char>) -> int {
    choose|i: int| is_first_place(variables, name, i)
}

/// The variables after `name` has been given `value`: a variable of that name keeps its
/// place and takes the new value; a new name goes to the end.
pub open spec fn inserted(
    variables: Seq<(Seq<char>, Seq<char>)>,
    name: Seq<char>,
    value: Seq<char>,
) -> Seq<(Seq<char>, Seq<char>)> {
    if has_name(variables, name) {
        variables.update(place_of(variables, name), (name, value))
    } else {
        variables.push((name, value))
    }
}

/// No name occurs twice.
pub open spec fn names_distinct(variables: Seq<(Seq<char>, Seq<char>)>) -> bool {
    forall|i: int, j: int|
        0 <= i < j < variables.len() ==> (#[trigger] variables[i]).0 != (#[trigger] variables[j]).0
}

/// There is only one first place.
pub proof fn lemma_first_place_is_unique(
    variables: Seq<(Seq<char>, Seq<char>)>,
    name: Seq<char>,
    i: int,
)
    requires
        is_first_place(variables, name, i),
    ensures
        place_of(variables, name) == i,
        has_name(variables, name),
{
}

/// Giving a variable a value never makes a name occur twice.
pub proof fn lemma_inserted_keeps_names_distinct(
    variables: Seq<(Seq<char>, Seq<char>)>,
    name: Seq<char>,
    value: Seq<char>,
)
    requires
        names_distinct(variables),
    ensures
        names_distinct(inserted(variables, name, value)),
{
    if has_name(variables, name) {
        let k = choose|i: int| 0 <= i < variables.len() && (#[trigger] variables[i]).0 == name;
        lemma_first_place_is_unique(variables, name, k);
    }
}

/// The values of template variables by name, in the order in which the names were
/// first given.
pub struct Variables {
    entries: Vec<(String, String)>,
}

impl View for Variables {
    type V = Seq<(Seq<char>, Seq<char>)>;

    closed spec fn view(&self) -> Seq<(Seq<char>, Seq<char>)> {
        Seq::new(self.entries@.len(), |i: int| (self.entries@[i].0@, self.entries@[i].1@))
    }
}

impl Variables {
    /// No variables.
    pub fn new() -> (variables: Self)
        ensures
            variables@ == Seq::<(Seq<char>, Seq<char>)>::empty(),
    {
        let variables = Variables { entries: Vec::new() };
        variables
    }

    /// The number of variables.
    pub fn len(&self) -> (n: usize)
        ensures
            n == self@.len(),
    {
        self.entries.len()
    }

    /// Gives the variable `name` the value `value`.
    pub fn insert(&mut self, name: &str, value: &str)
        ensures
            final(self)@ == inserted(old(self)@, name@, value@),
    {
        let key = name.to_owned();
        let ghost before = self@;
        let mut i: usize = 0;
        while i < self.entries.len()
            invariant
                i <= self.entries@.len(),
                self@ == before,
                before == old(self)@,
                key@ == name@,
                forall|j: int| 0 <= j < i ==> (#[trigger] before[j]).0 != name@,
            decreases self.entries@.len() - i,
        {
            if self.entries[i].0 == key {
                proof {
                    lemma_first_place_is_unique(before, name@, i as int);
                }
                self.entries.set(i, (key, value.to_owned()));
                return ;
            }
            i += 1;
        }
        self.entries.push((key, value.to_owned()));
    }

    /// The name and the value of the variable at place `i`, as characters.
    fn entry(&self, i: usize) -> (r: (Vec<char>, Vec<char>))
        requires
            i < self@.len(),
        ensures
            (r.0@, r.1@) == self@[i as int],
    {
        (chars_of(self.entries[i].0.as_str()), chars_of(self.entries[i].1.as_str()))
    }
}

/// Whether `pattern` stands in `text` at position `i`.
fn matches_at(text: &Vec<char>, i: usize, pattern: &Vec<char>) -> (b: bool)
    requires
        i <= text@.len(),
    ensures
        b == occurs_at(text@, i as int, pattern@),
{
    if pattern.len() > text.len() - i {
        return false;
    }
    let mut k: usize = 0;
    while k < pattern.len()
        invariant
            k <= pattern@.len(),
            i + pattern@.len() <= text.len(),
            text@.subrange(i as int, i + k) == pattern@.subrange(0, k as int),
        decreases pattern@.len() - k,
    {
        if text[i + k] != pattern[k] {
            return false;
        }
        k += 1;
    }
    assert(pattern@.subrange(0, pattern@.len() as int) =~= pattern@);
    true
}

/// Replaces every occurrence of `pattern` in `text` by `with`.
pub fn replace_all(text: &Vec<char>, pattern: &Vec<char>, with: &Vec<char>) -> (out: Vec<char>)
    ensures
        out@ == replaced(text@, pattern@, with@),
{
    let mut out: Vec<char> = Vec::new();
    let mut i: usize = 0;
    while i < text.len()
        invariant
            i <= text@.len(),
            out@ + replaced_from(text@, i as int, pattern@, with@) == replaced(
                text@,
                pattern@,
                with@,
            ),
        decreases text@.len() - i,
    {
        let ghost before = out@;
        if pattern.len() > 0 && matches_at(text, i, pattern) {
            let mut k: usize = 0;
            while k < with.len()
                invariant
                    k <= with@.len(),
                    out@ == before + with@.subrange(0, k as int),
                decreases with@.len() - k,
            {
                out.push(with[k]);
                k += 1;
            }
            i += pattern.len();
        } else {
            out.push(text[i]);
            i += 1;
        }
    }
    out
}

/// The placeholder for a variable name.
fn make_placeholder(name: &Vec<char>) -> (pattern: Vec<char>)
    ensures
        pattern@ == placeholder(name@),
{
    let mut pattern: Vec<char> = Vec::new();
    pattern.push('{');
    pattern.push('{');
    let mut k: usize = 0;
    while k < name.len()
        invariant
            k <= name@.len(),
            pattern@ == seq!['{', '{'] + name@.subrange(0, k as int),
        decreases name@.len() - k,
    {
        pattern.push(name[k]);
        k += 1;
    }
    pattern.push('}');
    pattern.push('}');
    assert(pattern@ =~= placeholder(name@));
    pattern
}

/// Replaces every placeholder `{{name}}` in `text` by the value of the variable `name`.
/// The variables are applied one after the other, in their order; placeholders of
/// unknown names stay as they are.
pub fn substitute(text: &str, variables: &Variables) -> (out: String)
    ensures
        out@ == substituted(text@, variables@),
{
    let mut current = chars_of(text);
    let mut i: usize = 0;
    while i < variables.len()
        invariant
            i <= variables@.len(),
            current@ == substituted_upto(text@, variables@, i as nat),
        decreases variables@.len() - i,
    {
        let (name, value) = variables.entry(i);
        let pattern = make_placeholder(&name);
        current = replace_all(&current, &pattern, &value);
        i += 1;
    }
    let out = string_of(current.as_slice(), 0, current.len());
    out
}

} // verus!
