//! The substitution table: originals and the replacements issued for them.

use crate::random::{all_alphanumeric, rand_string_of_len};
use crate::value::CellValue;
use vstd::hash_map::StringHashMap;
use vstd::hash_set::StringHashSet;
use vstd::prelude::*;

verus! {

/// The number of candidates that `anonymize` draws for one original at most.
/// The last of them is taken whether or not it collides.
pub const MAX_ATTEMPTS: usize = 10;

/// Every key is non-empty and maps to a text of its own length.
pub open spec fn length_preserving(table: Map<Seq<char>, Seq<char>>) -> bool {
    forall|original: Seq<char>| #[trigger]
        table.contains_key(original) ==> original.len() > 0 && table[original].len()
            == original.len()
}

/// Whether a table in state `table` records `candidate` as the replacement
/// of `original` when it is offered as attempt number `attempt` (from 0).
///
/// The original must be non-empty and new to the table, the candidate must
/// have its length, and, unless this is the last attempt, no other original
/// may already map to the candidate.
pub open spec fn admissible(
    table: Map<Seq<char>, Seq<char>>,
    original: Seq<char>,
    candidate: Seq<char>,
    attempt: int,
) -> bool {
    &&& original.len() > 0
    &&& !table.contains_key(original)
    &&& candidate.len() == original.len()
    &&& (attempt + 1 >= MAX_ATTEMPTS || !table.contains_value(candidate))
}

/// What one call of `anonymize` on `original` does: it takes a table from
/// `before` to `after` and answers `replacement`.
pub open spec fn anonymized(
    before: Map<Seq<char>, Seq<char>>,
    original: Seq<char>,
    after: Map<Seq<char>, Seq<char>>,
    replacement: Seq<char>,
) -> bool {
    if original.len() == 0 {
        replacement.len() == 0 && after == before
    } else if before.contains_key(original) {
        replacement == before[original] && after == before
    } else {
        &&& replacement.len() == original.len()
        &&& all_alphanumeric(replacement)
        &&& after == before.insert(original, replacement)
    }
}

/// A run-scoped mapping from original text to anonymized text.
pub struct StringAnonymizer {
    table: StringHashMap<String>,
    issued: StringHashSet,
}

impl View for StringAnonymizer {
    type V = Map<Seq<char>, Seq<char>>;

    closed spec fn view(&self) -> Map<Seq<char>, Seq<char>> {
        texts(self.table@)
    }
}

/// The stored entries with each replacement taken as text.
spec fn texts(entries: Map<Seq<char>, String>) -> Map<Seq<char>, Seq<char>> {
    entries.map_values(|replacement: String| replacement@)
}

/// The two collections of a table agree: `issued` holds exactly the
/// replacements of `entries`, and `entries` is finite and length preserving.
spec fn coherent(entries: Map<Seq<char>, String>, issued: Set<Seq<char>>) -> bool {
    &&& entries.dom().finite()
    &&& issued == texts(entries).values()
    &&& length_preserving(texts(entries))
}

impl StringAnonymizer {
    #[verifier::type_invariant]
    spec fn inv(self) -> bool {
        coherent(self.table@, self.issued@)
    }

    /// An empty table.
    pub fn new() -> (fresh: Self)
        ensures
            fresh@ == Map::<Seq<char>, Seq<char>>::empty(),
    {
        let table = StringHashMap::<String>::new();
        let issued = StringHashSet::new();
        assert(texts(table@).values() =~= Set::<Seq<char>>::empty());
        StringAnonymizer { table, issued }
    }

    /// The number of originals that have a replacement.
    pub fn len(&self) -> (count: usize)
        ensures
            self@.dom().finite(),
            count == self@.len(),
    {
        proof {
            use_type_invariant(self);
            assert(self@.dom() =~= self.table@.dom());
        }
        self.table.len()
    }

    /// The replacement recorded for `original`, if there is one.
    pub fn lookup(&self, original: &str) -> (found: Option<String>)
        ensures
            match found {
                Some(replacement) => self@.contains_key(original@) && replacement@
                    == self@[original@],
                None => !self@.contains_key(original@),
            },
    {
        match self.table.get(original) {
            Some(replacement) => Some(replacement.clone()),
            None => None,
        }
    }

    /// Whether some original already maps to `candidate`.
    pub fn is_issued(&self, candidate: &str) -> (taken: bool)
        ensures
            taken == self@.contains_value(candidate@),
    {
        proof {
            use_type_invariant(self);
        }
        self.issued.contains(candidate)
    }

    /// Offers `candidate` as the replacement of `original`, as attempt number
    /// `attempt` (counted from 0). The pair is recorded exactly when it is
    /// admissible; otherwise the table stays as it was.
    pub fn propose(&mut self, original: &str, candidate: String, attempt: usize) -> (accepted:
        bool)
        ensures
            accepted == admissible(old(self)@, original@, candidate@, attempt as int),
            accepted ==> final(self)@ == old(self)@.insert(original@, candidate@),
            !accepted ==> final(self)@ == old(self)@,
    {
        proof {
            use_type_invariant(&*self);
        }
        if original.is_empty() || self.table.contains_key(original) {
            return false;
        }
        if candidate.as_str().unicode_len() != original.unicode_len() {
            return false;
        }
        if attempt < MAX_ATTEMPTS - 1 && self.issued.contains(candidate.as_str()) {
            return false;
        }
        let mut held = StringAnonymizer::new();
        std::mem::swap(self, &mut held);
        let StringAnonymizer { mut table, mut issued } = held;
        proof {
            lemma_record(table@, original@, candidate);
        }
        issued.insert(candidate.clone());
        table.insert(String::from_str(original), candidate);
        *self = StringAnonymizer { table, issued };
        true
    }

    /// The anonymized form of `original`.
    ///
    /// The empty text stays empty and leaves the table alone. A text seen
    /// before gets the replacement it got then. A new text gets a random
    /// alphanumeric text of its own length, which the table remembers.
    pub fn anonymize(&mut self, original: &str) -> (replacement: String)
        ensures
            anonymized(old(self)@, original@, final(self)@, replacement@),
            replacement@.len() == original@.len(),
    {
        proof {
            use_type_invariant(&*self);
        }
        if original.is_empty() {
            return String::new();
        }
        if let Some(known) = self.table.get(original) {
            return known.clone();
        }
        let len = original.unicode_len();
        let mut attempt: usize = 0;
        loop
            invariant
                attempt < MAX_ATTEMPTS,
                len == original@.len(),
                len > 0,
                self@ == old(self)@,
                !self@.contains_key(original@),
            decreases MAX_ATTEMPTS - attempt,
        {
            let candidate = rand_string_of_len(len);
            if self.propose(original, candidate.clone(), attempt) {
                return candidate;
            }
            attempt += 1;
        }
    }

    /// The value that takes the place of `value` in an anonymized column.
    ///
    /// Text is anonymized. A value that is no text is invalid input for the
    /// table and passes through as it is.
    pub fn anonymize_value(&mut self, value: CellValue) -> (output: CellValue)
        ensures
            match value {
                CellValue::Text(original) => output matches CellValue::Text(replacement)
                    && anonymized(old(self)@, original@, final(self)@, replacement@)
                    && replacement@.len() == original@.len(),
                _ => output == value && final(self)@ == old(self)@,
            },
    {
        match value.as_text() {
            Ok(original) => {
                let replacement = self.anonymize(original);
                CellValue::Text(replacement)
            },
            Err(_) => value,
        }
    }
}

impl Default for StringAnonymizer {
    fn default() -> (fresh: Self)
        ensures
            fresh@ == Map::<Seq<char>, Seq<char>>::empty(),
    {
        StringAnonymizer::new()
    }
}

/// Recording a new pair adds its text to the model and to the set of
/// replacements, and keeps the table coherent.
proof fn lemma_record(entries: Map<Seq<char>, String>, original: Seq<char>, replacement: String)
    requires
        coherent(entries, texts(entries).values()),
        !entries.contains_key(original),
        original.len() > 0,
        replacement@.len() == original.len(),
    ensures
        texts(entries.insert(original, replacement)) == texts(entries).insert(
            original,
            replacement@,
        ),
        texts(entries.insert(original, replacement)).values() == texts(entries).values().insert(
            replacement@,
        ),
        coherent(
            entries.insert(original, replacement),
            texts(entries).values().insert(replacement@),
        ),
{
    let before = texts(entries);
    let after = texts(entries.insert(original, replacement));
    assert(after =~= before.insert(original, replacement@));
    assert forall|text: Seq<char>| after.contains_value(text) <==> (before.contains_value(text)
        || text == replacement@) by {
        if before.contains_value(text) {
            let key = choose|key: Seq<char>| before.contains_key(key) && before[key] == text;
            assert(after.contains_key(key) && after[key] == text);
        }
        if text == replacement@ {
            assert(after.contains_key(original) && after[original] == text);
        }
    }
}

/// Asking twice for the same original gives the same replacement twice, and
/// the second call changes nothing.
pub proof fn lemma_repeat_is_stable(
    start: Map<Seq<char>, Seq<char>>,
    original: Seq<char>,
    middle: Map<Seq<char>, Seq<char>>,
    first: Seq<char>,
    end: Map<Seq<char>, Seq<char>>,
    second: Seq<char>,
)
    requires
        anonymized(start, original, middle, first),
        anonymized(middle, original, end, second),
    ensures
        second == first,
        end == middle,
{
}

/// A call never drops or changes an entry that the table already holds.
pub proof fn lemma_entries_persist(
    before: Map<Seq<char>, Seq<char>>,
    original: Seq<char>,
    after: Map<Seq<char>, Seq<char>>,
    replacement: Seq<char>,
)
    requires
        anonymized(before, original, after, replacement),
    ensures
        before.submap_of(after),
{
}

/// Once an original has its replacement, it keeps it however the table grows
/// in between: a later call for it answers what the first call answered.
pub proof fn lemma_answer_is_kept(
    start: Map<Seq<char>, Seq<char>>,
    original: Seq<char>,
    middle: Map<Seq<char>, Seq<char>>,
    first: Seq<char>,
    later: Map<Seq<char>, Seq<char>>,
    end: Map<Seq<char>, Seq<char>>,
    second: Seq<char>,
)
    requires
        anonymized(start, original, middle, first),
        middle.submap_of(later),
        anonymized(later, original, end, second),
    ensures
        second == first,
        end == later,
{
    if original.len() > 0 {
        assert(middle.contains_key(original));
    }
}

/// The replacement is as long as the original, and the table stays length
/// preserving.
pub proof fn lemma_length_is_preserved(
    before: Map<Seq<char>, Seq<char>>,
    original: Seq<char>,
    after: Map<Seq<char>, Seq<char>>,
    replacement: Seq<char>,
)
    requires
        length_preserving(before),
        anonymized(before, original, after, replacement),
    ensures
        replacement.len() == original.len(),
        length_preserving(after),
{
}

/// The empty text maps to the empty text, and nothing is inserted for it.
pub proof fn lemma_empty_is_untouched(
    before: Map<Seq<char>, Seq<char>>,
    after: Map<Seq<char>, Seq<char>>,
    replacement: Seq<char>,
)
    requires
        anonymized(before, Seq::<char>::empty(), after, replacement),
    ensures
        replacement == Seq::<char>::empty(),
        after == before,
        after.len() == before.len(),
{
}

/// A candidate taken before the last attempt is the replacement of no other
/// original: a table without collisions stays without collisions.
pub proof fn lemma_unforced_is_distinct(
    table: Map<Seq<char>, Seq<char>>,
    original: Seq<char>,
    candidate: Seq<char>,
    attempt: int,
)
    requires
        table.is_injective(),
        admissible(table, original, candidate, attempt),
        attempt + 1 < MAX_ATTEMPTS,
    ensures
        table.insert(original, candidate).is_injective(),
{
    let grown = table.insert(original, candidate);
    assert forall|x: Seq<char>, y: Seq<char>|
        x != y && grown.dom().contains(x) && grown.dom().contains(y) implies #[trigger] grown[x]
        != #[trigger] grown[y] by {
        if x == original {
            assert(table.contains_value(table[y]));
        } else if y == original {
            assert(table.contains_value(table[x]));
        }
    }
}

/// The last attempt never fails: whatever the candidate collides with, it is
/// taken, provided it has the length of a new, non-empty original.
pub proof fn lemma_last_attempt_is_taken(
    table: Map<Seq<char>, Seq<char>>,
    original: Seq<char>,
    candidate: Seq<char>,
)
    requires
        original.len() > 0,
        !table.contains_key(original),
        candidate.len() == original.len(),
    ensures
        admissible(table, original, candidate, MAX_ATTEMPTS - 1),
{
}

} // verus!
