//! The token that the token endpoint hands back, and the extra fields that
//! came with it.

use vstd::prelude::*;

verus! {

/// Keys of `entries`, each taken by its view, are pairwise distinct.
pub open spec fn keys_distinct(entries: Seq<(String, serde_json::Value)>) -> bool {
    forall|i: int, j: int|
        0 <= i < j < entries.len() ==> #[trigger] entries[i].0@ != #[trigger] entries[j].0@
}

/// The map that a list of entries stands for; a later entry for a key wins.
pub open spec fn entries_map(entries: Seq<(String, serde_json::Value)>) -> Map<
    Seq<char>,
    serde_json::Value,
>
    decreases entries.len(),
{
    if entries.len() == 0 {
        Map::empty()
    } else {
        entries_map(entries.drop_last()).insert(entries.last().0@, entries.last().1)
    }
}

/// A key is in the map exactly when some entry has it.
pub proof fn lemma_entries_map_dom(entries: Seq<(String, serde_json::Value)>, k: Seq<char>)
    ensures
        entries_map(entries).contains_key(k) <==> exists|i: int|
            0 <= i < entries.len() && #[trigger] entries[i].0@ == k,
    decreases entries.len(),
{
    if entries.len() > 0 {
        let init = entries.drop_last();
        lemma_entries_map_dom(init, k);
        if exists|i: int| 0 <= i < init.len() && #[trigger] init[i].0@ == k {
            let i = choose|i: int| 0 <= i < init.len() && #[trigger] init[i].0@ == k;
            assert(entries[i].0@ == k);
        }
        if exists|i: int| 0 <= i < entries.len() && #[trigger] entries[i].0@ == k {
            let i = choose|i: int| 0 <= i < entries.len() && #[trigger] entries[i].0@ == k;
            if i < entries.len() - 1 {
                assert(init[i].0@ == k);
            }
        }
    }
}

/// With distinct keys, the map holds each entry's value under its key.
pub proof fn lemma_entries_map_value(entries: Seq<(String, serde_json::Value)>, i: int)
    requires
        keys_distinct(entries),
        0 <= i < entries.len(),
    ensures
        entries_map(entries).contains_key(entries[i].0@),
        entries_map(entries)[entries[i].0@] == entries[i].1,
    decreases entries.len(),
{
    let init = entries.drop_last();
    if i < entries.len() - 1 {
        assert(init[i] == entries[i]);
        lemma_entries_map_value(init, i);
        assert(entries[i].0@ != entries[entries.len() - 1].0@);
    }
}

/// Extra fields of a token response, each under a distinct key.
#[derive(Debug)]
pub struct ExtraFields {
    entries: Vec<(String, serde_json::Value)>,
}

impl View for ExtraFields {
    type V = Map<Seq<char>, serde_json::Value>;

    closed spec fn view(&self) -> Map<Seq<char>, serde_json::Value> {
        entries_map(self.entries@)
    }
}

impl ExtraFields {
    #[verifier::type_invariant]
    spec fn keys_unique(self) -> bool {
        keys_distinct(self.entries@)
    }

    /// The value under `key`, if there is one.
    pub open spec fn lookup(&self, key: Seq<char>) -> Option<serde_json::Value> {
        if self@.contains_key(key) {
            Some(self@[key])
        } else {
            None
        }
    }

    /// No extra fields.
    pub fn new() -> (r: ExtraFields)
        ensures
            r@ == Map::<Seq<char>, serde_json::Value>::empty(),
    {
        ExtraFields { entries: Vec::new() }
    }

    /// The value under `key`, if there is one.
    pub fn get(&self, key: &str) -> (r: Option<&serde_json::Value>)
        ensures
            match r {
                Some(v) => self.lookup(key@) == Some(*v),
                None => self.lookup(key@) is None,
            },
    {
        proof {
            use_type_invariant(self);
            lemma_entries_map_dom(self.entries@, key@);
        }
        match find_key(&self.entries, key) {
            Some(i) => {
                proof {
                    lemma_entries_map_value(self.entries@, i as int);
                }
                Some(&self.entries[i].1)
            },
            None => None,
        }
    }

    /// Sets the value under `key`, replacing the one that was there.
    pub fn insert(&mut self, key: String, value: serde_json::Value)
        ensures
            final(self)@ == old(self)@.insert(key@, value),
    {
        proof {
            use_type_invariant(&*self);
        }
        let mut entries = Vec::new();
        std::mem::swap(&mut entries, &mut self.entries);
        let ghost before = entries@;
        match find_key(&entries, key.as_str()) {
            Some(i) => {
                entries.set(i, (key, value));
                proof {
                    let after = entries@;
                    assert(keys_distinct(after)) by {
                        assert forall|a: int, b: int| 0 <= a < b < after.len() implies
                            #[trigger] after[a].0@ != #[trigger] after[b].0@ by {
                            assert(a != i ==> after[a] == before[a]);
                            assert(b != i ==> after[b] == before[b]);
                        }
                    }
                    lemma_entries_map_value(after, i as int);
                    assert forall|k: Seq<char>| #[trigger] entries_map(after).contains_key(k)
                        == entries_map(before).insert(key@, value).contains_key(k) by {
                        lemma_entries_map_dom(after, k);
                        lemma_entries_map_dom(before, k);
                        if exists|j: int| 0 <= j < before.len() && #[trigger] before[j].0@ == k {
                            let j = choose|j: int| 0 <= j < before.len() && #[trigger] before[j].0@ == k;
                            assert(j == i || after[j].0@ == k);
                        }
                        if exists|j: int| 0 <= j < after.len() && #[trigger] after[j].0@ == k {
                            let j = choose|j: int| 0 <= j < after.len() && #[trigger] after[j].0@ == k;
                            assert(j == i || before[j].0@ == k);
                        }
                    }
                    assert forall|k: Seq<char>| #[trigger] entries_map(after).contains_key(k)
                        implies entries_map(after)[k] == entries_map(before).insert(key@, value)[k] by {
                        lemma_entries_map_dom(after, k);
                        let j = choose|j: int| 0 <= j < after.len() && #[trigger] after[j].0@ == k;
                        lemma_entries_map_value(after, j);
                        if j != i {
                            lemma_entries_map_value(before, j);
                        }
                    }
                    assert(entries_map(after) =~= entries_map(before).insert(key@, value));
                }
            },
            None => {
                entries.push((key, value));
                proof {
                    let after = entries@;
                    assert(after.drop_last() =~= before);
                    assert(keys_distinct(after)) by {
                        assert forall|a: int, b: int| 0 <= a < b < after.len() implies
                            #[trigger] after[a].0@ != #[trigger] after[b].0@ by {
                            assert(after[a] == before[a]);
                            if b < before.len() {
                                assert(after[b] == before[b]);
                            }
                        }
                    }
                }
            },
        }
        self.entries = entries;
    }
}

impl ExtraFields {
    /// Extra fields from key-value pairs in the order they came; where a key
    /// comes twice, the later value wins.
    pub fn from_entries(entries: Vec<(String, serde_json::Value)>) -> (r: ExtraFields)
        ensures
            r@ == entries_map(entries@),
    {
        let ghost all = entries@;
        let n = entries.len();
        let mut rest = entries;
        let mut fields = ExtraFields::new();
        let mut i: usize = 0;
        while rest.len() > 0
            invariant
                n == all.len(),
                i <= all.len(),
                rest@.len() == all.len() - i,
                rest@ == all.skip(i as int),
                fields@ == entries_map(all.take(i as int)),
            decreases rest@.len(),
        {
            let (key, value) = rest.remove(0);
            proof {
                assert(all[i as int] == (key, value));
                assert(all.take(i + 1).drop_last() =~= all.take(i as int));
                assert(rest@ =~= all.skip(i + 1));
            }
            fields.insert(key, value);
            i = i + 1;
        }
        proof {
            assert(all.take(i as int) =~= all);
        }
        fields
    }

    /// The key-value pairs, each key once.
    pub fn into_entries(self) -> (r: Vec<(String, serde_json::Value)>)
        ensures
            keys_distinct(r@),
            entries_map(r@) == self@,
    {
        proof {
            use_type_invariant(&self);
        }
        self.entries
    }
}

/// What a read gives back of a write: after `insert(key, value)` turned
/// `before` into `after`, `get(key)` gives `value`, and `get` of any other key
/// gives what it gave before, present or not.
pub proof fn law_get_after_insert(
    before: ExtraFields,
    after: ExtraFields,
    key: Seq<char>,
    value: serde_json::Value,
    other: Seq<char>,
)
    requires
        after@ == before@.insert(key, value),
        other != key,
    ensures
        after.lookup(key) == Some(value),
        after.lookup(other) == before.lookup(other),
{
}

/// Position of the entry of `entries` whose key is `key`, if any.
fn find_key(entries: &Vec<(String, serde_json::Value)>, key: &str) -> (r: Option<usize>)
    ensures
        match r {
            Some(i) => i < entries@.len() && entries@[i as int].0@ == key@,
            None => forall|i: int|
                0 <= i < entries@.len() ==> #[trigger] entries@[i].0@ != key@,
        },
{
    let wanted = key.to_string();
    let n = entries.len();
    let mut i: usize = 0;
    while i < n
        invariant
            n == entries@.len(),
            wanted@ == key@,
            i <= n,
            forall|j: int| 0 <= j < i ==> #[trigger] entries@[j].0@ != key@,
        decreases n - i,
    {
        if entries[i].0 == wanted {
            return Some(i);
        }
        i = i + 1;
    }
    None
}

/// The token type that `Token::token_type` reports for the raw field `tt`:
/// the field itself when it is not empty, else `Bearer`, the default.
pub open spec fn token_type_name(tt: Seq<char>) -> Seq<char> {
    if tt.len() > 0 {
        tt
    } else {
        "Bearer"@
    }
}

/// The token that authorizes and authenticates requests, as the token
/// endpoint returned it.
#[derive(Debug)]
pub struct Token {
    /// The token that authorizes and authenticates the requests.
    pub access_token: String,
    /// The type of token; see `token_type` for the type it stands for.
    pub token_type: String,
    /// The token the application uses to refresh the access token.
    pub refresh_token: Option<String>,
    /// Seconds until the token expires, from about now.
    pub expires_in: u64,
    /// Extra fields the server returned alongside the token.
    pub extra: ExtraFields,
}

impl Token {
    /// The extra fields that came with the token.
    pub open spec fn extra(&self) -> Map<Seq<char>, serde_json::Value> {
        self.extra@
    }

    /// A token made of its parts.
    pub fn new(
        access_token: String,
        token_type: String,
        refresh_token: Option<String>,
        expires_in: u64,
        extra: ExtraFields,
    ) -> (t: Token)
        ensures
            t.access_token == access_token,
            t.token_type == token_type,
            t.refresh_token == refresh_token,
            t.expires_in == expires_in,
            t.extra() == extra@,
    {
        Token { access_token, token_type, refresh_token, expires_in, extra }
    }

    /// The type of the token: the `token_type` field when it is not empty,
    /// else `Bearer`, the default.
    pub fn token_type(&self) -> (r: &str)
        ensures
            r@ == token_type_name(self.token_type@),
            self.token_type@.len() > 0 ==> r@ == self.token_type@,
            self.token_type@.len() == 0 ==> r@ == "Bearer"@,
    {
        let tt = self.token_type.as_str();
        if tt.unicode_len() > 0 {
            tt
        } else {
            "Bearer"
        }
    }

    /// An extra field: a key-value pair that the server returned with the
    /// token, if it returned one under `key`.
    pub fn get_extra(&self, key: &str) -> (r: Option<&serde_json::Value>)
        ensures
            match r {
                Some(v) => self.extra.lookup(key@) == Some(*v),
                None => self.extra.lookup(key@) is None,
            },
    {
        self.extra.get(key)
    }
}

/// A token type field that is not empty is reported as it stands, whatever
/// it says; only an empty field is reported as `Bearer`.
pub proof fn law_token_type_reports_the_field(tt: Seq<char>)
    ensures
        tt.len() > 0 ==> token_type_name(tt) == tt,
        tt.len() == 0 ==> token_type_name(tt) == "Bearer"@,
{
}

/// The reported token type never is empty.
pub proof fn law_token_type_nonempty(tt: Seq<char>)
    ensures
        token_type_name(tt).len() > 0,
{
    reveal_strlit("Bearer");
}

/// Reporting the type of a token whose type field already is a reported
/// type gives that type back.
pub proof fn law_token_type_idempotent(tt: Seq<char>)
    ensures
        token_type_name(token_type_name(tt)) == token_type_name(tt),
{
    reveal_strlit("Bearer");
}

} // verus!
