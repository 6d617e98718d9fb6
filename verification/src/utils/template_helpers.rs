use crate::text::{lowercase, to_lowercase, to_uppercase, uppercase, TextMap};
use vstd::prelude::*;

verus! {

/// One variable of a context: its name and the text that replaces it.
#[derive(Debug)]
pub struct Entry {
    pub key: String,
    pub value: String,
}

/// The mapping that a list of entries stands for. Where a key occurs more than
/// once, the entry nearest the end gives its value.
pub open spec fn entry_map(entries: Seq<Entry>) -> TextMap
    decreases entries.len(),
{
    if entries.len() == 0 {
        Map::empty()
    } else {
        entry_map(entries.drop_last()).insert(entries.last().key@, entries.last().value@)
    }
}

/// No key occurs twice in `entries`.
pub open spec fn distinct_keys(entries: Seq<Entry>) -> bool {
    forall|i: int, j: int| 0 <= i < j < entries.len() ==> entries[i].key@ != entries[j].key@
}

/// A key that no entry holds is outside the mapping.
proof fn lemma_entry_map_absent(entries: Seq<Entry>, key: Seq<char>)
    requires
        forall|i: int| 0 <= i < entries.len() ==> entries[i].key@ != key,
    ensures
        !entry_map(entries).dom().contains(key),
    decreases entries.len(),
{
    if entries.len() > 0 {
        lemma_entry_map_absent(entries.drop_last(), key);
    }
}

/// The last entry that holds a key gives the key's value.
proof fn lemma_entry_map_present(entries: Seq<Entry>, i: int)
    requires
        0 <= i < entries.len(),
        forall|j: int| i < j < entries.len() ==> entries[j].key@ != entries[i].key@,
    ensures
        entry_map(entries).dom().contains(entries[i].key@),
        entry_map(entries)[entries[i].key@] == entries[i].value@,
    decreases entries.len(),
{
    if i < entries.len() - 1 {
        lemma_entry_map_present(entries.drop_last(), i);
    }
}

/// Replacing the one entry that holds a key puts the new value under that key and
/// leaves every other key alone.
proof fn lemma_entry_map_update(entries: Seq<Entry>, i: int, entry: Entry)
    requires
        0 <= i < entries.len(),
        distinct_keys(entries),
        entry.key@ == entries[i].key@,
    ensures
        entry_map(entries.update(i, entry)) == entry_map(entries).insert(entry.key@, entry.value@),
        distinct_keys(entries.update(i, entry)),
    decreases entries.len(),
{
    let updated = entries.update(i, entry);
    if i == entries.len() - 1 {
        assert(updated.drop_last() == entries.drop_last());
        assert(entry_map(updated) == entry_map(entries).insert(entry.key@, entry.value@));
    } else {
        lemma_entry_map_update(entries.drop_last(), i, entry);
        assert(updated.drop_last() == entries.drop_last().update(i, entry));
        assert(updated.last() == entries.last());
        assert(entries.last().key@ != entry.key@);
        assert(entry_map(updated) == entry_map(entries).insert(entry.key@, entry.value@));
    }
}

/// Taking out the one entry that holds a key takes the key out of the mapping and
/// leaves every other key alone.
proof fn lemma_entry_map_remove(entries: Seq<Entry>, i: int)
    requires
        0 <= i < entries.len(),
        distinct_keys(entries),
    ensures
        entry_map(entries.remove(i)) == entry_map(entries).remove(entries[i].key@),
        distinct_keys(entries.remove(i)),
    decreases entries.len(),
{
    let shorter = entries.remove(i);
    let key = entries[i].key@;
    if i == entries.len() - 1 {
        assert(shorter == entries.drop_last());
        lemma_entry_map_absent(shorter, key);
        assert(entry_map(shorter) == entry_map(entries).remove(key));
    } else {
        lemma_entry_map_remove(entries.drop_last(), i);
        assert(shorter.drop_last() == entries.drop_last().remove(i));
        assert(shorter.last() == entries.last());
        assert(entries.last().key@ != key);
        assert(entry_map(shorter) == entry_map(entries).remove(key));
    }
}

/// A list of entries with distinct keys stands for a mapping with as many keys.
proof fn lemma_entry_map_len(entries: Seq<Entry>)
    requires
        distinct_keys(entries),
    ensures
        entry_map(entries).dom().finite(),
        entry_map(entries).dom().len() == entries.len(),
    decreases entries.len(),
{
    if entries.len() > 0 {
        lemma_entry_map_len(entries.drop_last());
        lemma_entry_map_absent(entries.drop_last(), entries.last().key@);
    }
}

/// The variables handed to a template: named texts, each name once.
#[derive(Debug)]
pub struct Context {
    entries: Vec<Entry>,
}

impl View for Context {
    type V = TextMap;

    closed spec fn view(&self) -> TextMap {
        entry_map(self.entries@)
    }
}

impl Context {
    #[verifier::type_invariant]
    spec fn well_formed(&self) -> bool {
        distinct_keys(self.entries@)
    }

    /// A context without variables.
    pub fn new() -> (context: Self)
        ensures
            context@ == TextMap::empty(),
    {
        Context { entries: Vec::new() }
    }

    /// The entries, each key once.
    pub(crate) fn entries(&self) -> (entries: &Vec<Entry>)
        ensures
            distinct_keys(entries@),
            entry_map(entries@) == self@,
    {
        proof {
            use_type_invariant(self);
        }
        &self.entries
    }

    /// The number of keys.
    pub fn len(&self) -> (count: usize)
        ensures
            self@.dom().finite(),
            count == self@.dom().len(),
    {
        proof {
            use_type_invariant(self);
            lemma_entry_map_len(self.entries@);
        }
        self.entries.len()
    }

    /// Whether the context is without variables.
    pub fn is_empty(&self) -> (empty: bool)
        ensures
            empty <==> self@ == TextMap::empty(),
    {
        proof {
            use_type_invariant(self);
            lemma_entry_map_len(self.entries@);
            if self.entries@.len() == 0 {
                assert(self@ == TextMap::empty());
            } else {
                assert(self@.dom().len() > 0);
            }
        }
        self.entries.len() == 0
    }

    /// The text that stands under `key`, if there is one.
    pub fn get(&self, key: &str) -> (found: Option<&str>)
        ensures
            match found {
                Some(value) => self@.dom().contains(key@) && self@[key@] == value@,
                None => !self@.dom().contains(key@),
            },
    {
        proof {
            use_type_invariant(self);
        }
        let mut i: usize = 0;
        while i < self.entries.len()
            invariant
                i <= self.entries.len(),
                distinct_keys(self.entries@),
                forall|j: int| 0 <= j < i ==> self.entries[j].key@ != key@,
            decreases self.entries.len() - i,
        {
            if self.entries[i].key.as_str().eq(key) {
                proof {
                    lemma_entry_map_present(self.entries@, i as int);
                }
                return Some(self.entries[i].value.as_str());
            }
            i = i + 1;
        }
        proof {
            lemma_entry_map_absent(self.entries@, key@);
        }
        None
    }

    /// Takes `key` out, with what stood under it.
    pub fn remove(&mut self, key: &str)
        ensures
            final(self)@ == old(self)@.remove(key@),
    {
        proof {
            use_type_invariant(&*self);
        }
        let mut entries: Vec<Entry> = Vec::new();
        core::mem::swap(&mut self.entries, &mut entries);
        let ghost before = entries@;
        let mut i: usize = 0;
        while i < entries.len()
            invariant
                i <= entries.len(),
                entries@ == before,
                distinct_keys(before),
                entry_map(before) == old(self)@,
                forall|j: int| 0 <= j < i ==> entries[j].key@ != key@,
            decreases entries.len() - i,
        {
            if entries[i].key.as_str().eq(key) {
                proof {
                    lemma_entry_map_remove(before, i as int);
                }
                let _ = entries.remove(i);
                self.entries = entries;
                return ;
            }
            i = i + 1;
        }
        proof {
            lemma_entry_map_absent(before, key@);
            assert(entry_map(before).remove(key@) == entry_map(before));
        }
        self.entries = entries;
    }

    /// Puts `value` under `key`, in place of what stood there before.
    pub fn insert(&mut self, key: &str, value: &str)
        ensures
            final(self)@ == old(self)@.insert(key@, value@),
    {
        proof {
            use_type_invariant(&*self);
        }
        let mut entries: Vec<Entry> = Vec::new();
        core::mem::swap(&mut self.entries, &mut entries);
        let ghost before = entries@;
        let entry = Entry { key: key.to_string(), value: value.to_string() };
        let mut i: usize = 0;
        while i < entries.len()
            invariant
                i <= entries.len(),
                entries@ == before,
                distinct_keys(before),
                entry_map(before) == old(self)@,
                entry.key@ == key@,
                entry.value@ == value@,
                forall|j: int| 0 <= j < i ==> entries[j].key@ != key@,
            decreases entries.len() - i,
        {
            if entries[i].key.as_str().eq(key) {
                proof {
                    lemma_entry_map_update(before, i as int, entry);
                }
                entries.set(i, entry);
                self.entries = entries;
                return ;
            }
            i = i + 1;
        }
        proof {
            assert(before.push(entry).drop_last() == before);
        }
        entries.push(entry);
        self.entries = entries;
    }
}

/// The variables that describe a project, given its name and the two case forms
/// of that name.
pub open spec fn project_variables(name: Seq<char>, lower: Seq<char>, upper: Seq<char>) -> TextMap {
    TextMap::empty().insert("project_name"@, name).insert("project_name_lowercase"@, lower).insert(
        "project_name_uppercase"@,
        upper,
    )
}

/// The variables that describe the language of a project.
pub open spec fn language_variables(language: Seq<char>, version: Seq<char>) -> TextMap {
    TextMap::empty().insert("language"@, language).insert("language_version"@, version)
}

/// What several mappings come to when they are laid over each other from first to
/// last: every key of any of them, each with the value of the last mapping that
/// holds it.
pub open spec fn merged(maps: Seq<TextMap>) -> TextMap
    decreases maps.len(),
{
    if maps.len() == 0 {
        Map::empty()
    } else {
        merged(maps.drop_last()).union_prefer_right(maps.last())
    }
}

/// The mappings that a list of contexts stands for.
pub open spec fn context_maps(contexts: Seq<&Context>) -> Seq<TextMap> {
    contexts.map_values(|context: &Context| context@)
}

/// The context of a project whose name is `name`, whose lowercase form is `lower`
/// and whose uppercase form is `upper`.
pub fn project_context_of(name: &str, lower: &str, upper: &str) -> (context: Context)
    ensures
        context@ == project_variables(name@, lower@, upper@),
{
    let mut context = Context::new();
    context.insert("project_name", name);
    context.insert("project_name_lowercase", lower);
    context.insert("project_name_uppercase", upper);
    context
}

/// The context of a project: its name as given, in lowercase and in uppercase.
pub fn project_context(project_name: &str) -> (context: Context)
    ensures
        context@ == project_variables(
            project_name@,
            lowercase(project_name@),
            uppercase(project_name@),
        ),
{
    let lower = to_lowercase(project_name);
    let upper = to_uppercase(project_name);
    project_context_of(project_name, lower.as_str(), upper.as_str())
}

/// The context of a language: its identifier and its version.
pub fn language_context(language: &str, version: &str) -> (context: Context)
    ensures
        context@ == language_variables(language@, version@),
{
    let mut context = Context::new();
    context.insert("language", language);
    context.insert("language_version", version);
    context
}

/// One context out of several: a key that more than one of them holds keeps the
/// value of the last that holds it.
pub fn merge_contexts(contexts: &[&Context]) -> (context: Context)
    ensures
        context@ == merged(context_maps(contexts@)),
{
    let ghost maps = context_maps(contexts@);
    let mut result = Context::new();
    let mut i: usize = 0;
    while i < contexts.len()
        invariant
            i <= contexts.len(),
            maps == context_maps(contexts@),
            result@ == merged(maps.take(i as int)),
        decreases contexts.len() - i,
    {
        let entries = contexts[i].entries();
        let ghost base = result@;
        let mut j: usize = 0;
        while j < entries.len()
            invariant
                j <= entries.len(),
                result@ == base.union_prefer_right(entry_map(entries@.take(j as int))),
            decreases entries.len() - j,
        {
            proof {
                let taken = entries@.take(j as int + 1);
                assert(taken.drop_last() == entries@.take(j as int));
                assert(base.union_prefer_right(entry_map(taken)) == base.union_prefer_right(
                    entry_map(entries@.take(j as int)),
                ).insert(entries[j as int].key@, entries[j as int].value@));
            }
            result.insert(entries[j].key.as_str(), entries[j].value.as_str());
            j = j + 1;
        }
        proof {
            assert(entries@.take(entries.len() as int) == entries@);
            assert(maps.take(i as int + 1).drop_last() == maps.take(i as int));
            assert(maps.take(i as int + 1).last() == contexts[i as int]@);
        }
        i = i + 1;
    }
    proof {
        assert(maps.take(contexts.len() as int) == maps);
    }
    result
}

/// The keys of a merge are the keys of its parts.
pub proof fn lemma_merged_keys(maps: Seq<TextMap>, key: Seq<char>)
    ensures
        merged(maps).dom().contains(key) <==> exists|i: int|
            0 <= i < maps.len() && #[trigger] maps[i].dom().contains(key),
    decreases maps.len(),
{
    if maps.len() > 0 {
        lemma_merged_keys(maps.drop_last(), key);
        if merged(maps).dom().contains(key) {
            if maps.last().dom().contains(key) {
                assert(maps[maps.len() - 1].dom().contains(key));
            } else {
                let i = choose|i: int|
                    0 <= i < maps.drop_last().len() && #[trigger] maps.drop_last()[i].dom().contains(
                        key,
                    );
                assert(maps[i].dom().contains(key));
            }
        }
        if exists|i: int| 0 <= i < maps.len() && #[trigger] maps[i].dom().contains(key) {
            let i = choose|i: int| 0 <= i < maps.len() && #[trigger] maps[i].dom().contains(key);
            if i < maps.len() - 1 {
                assert(maps.drop_last()[i].dom().contains(key));
            }
        }
    }
}

/// The last part that holds a key decides its value: where `maps[i]` holds `key` and
/// no later part does, the merge has the value of `maps[i]`.
pub proof fn lemma_merged_last_wins(maps: Seq<TextMap>, i: int, key: Seq<char>)
    requires
        0 <= i < maps.len(),
        maps[i].dom().contains(key),
        forall|j: int| i < j < maps.len() ==> !maps[j].dom().contains(key),
    ensures
        merged(maps).dom().contains(key),
        merged(maps)[key] == maps[i][key],
    decreases maps.len(),
{
    if i < maps.len() - 1 {
        lemma_merged_last_wins(maps.drop_last(), i, key);
    }
}

/// Of two contexts that hold the same key, the second gives the value.
pub proof fn lemma_merged_pair(first: TextMap, second: TextMap, key: Seq<char>)
    requires
        second.dom().contains(key),
    ensures
        merged(seq![first, second]).dom().contains(key),
        merged(seq![first, second])[key] == second[key],
{
    lemma_merged_last_wins(seq![first, second], 1, key);
}

/// A context that is given again at the end gives the value of every key it holds,
/// whatever stood between.
pub proof fn lemma_merged_repeated(first: TextMap, second: TextMap, key: Seq<char>)
    requires
        first.dom().contains(key),
    ensures
        merged(seq![first, second, first]).dom().contains(key),
        merged(seq![first, second, first])[key] == first[key],
{
    lemma_merged_last_wins(seq![first, second, first], 2, key);
}

/// Merging is associative in the order of its parts: to merge two runs of contexts
/// one after the other is to merge the results of the two runs.
pub proof fn lemma_merged_concat(front: Seq<TextMap>, back: Seq<TextMap>)
    ensures
        merged(front + back) == merged(seq![merged(front), merged(back)]),
    decreases back.len(),
{
    let pair = seq![merged(front), merged(back)];
    assert(pair.drop_last() == seq![merged(front)]);
    assert(seq![merged(front)].drop_last() == Seq::<TextMap>::empty());
    assert(merged(seq![merged(front)]) == merged(front)) by {
        assert(merged(Seq::<TextMap>::empty()) == TextMap::empty());
        assert(TextMap::empty().union_prefer_right(merged(front)) == merged(front));
    }
    assert(merged(pair) == merged(front).union_prefer_right(merged(back)));
    if back.len() == 0 {
        assert(front + back == front);
        assert(merged(front).union_prefer_right(merged(back)) == merged(front));
    } else {
        lemma_merged_concat(front, back.drop_last());
        let shorter = seq![merged(front), merged(back.drop_last())];
        assert(shorter.drop_last() == seq![merged(front)]);
        assert(merged(shorter) == merged(front).union_prefer_right(merged(back.drop_last())));
        assert((front + back).drop_last() == front + back.drop_last());
        assert((front + back).last() == back.last());
        assert(merged(front + back) == merged(front).union_prefer_right(merged(back)));
    }
}

} // verus!
