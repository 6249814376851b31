//! The store of named command shortcuts.
//!
//! Shortcuts are kept in the order in which they were added. A shortcut is
//! stored under the slug of the name it is given, when it is added and when
//! it is renamed, and a name is refused while another shortcut has it in
//! whatever case of letters. The store is written back in full after every
//! change; the writing itself is done by whoever owns the file.

use crate::text::{lowercased, replace, replaced, to_lowercase, trim, trimmed};
use vstd::prelude::*;
use vstd::string::*;

verus! {

/// A named command line.
#[derive(Debug, PartialEq, Eq)]
pub struct Shortcut {
    pub name: String,
    pub command: String,
    /// When the shortcut was added, in seconds since the Unix epoch.
    pub created_at: u64,
}

/// A shortcut as a plain value.
pub struct ShortcutView {
    pub name: Seq<char>,
    pub command: Seq<char>,
    pub created_at: u64,
}

impl View for Shortcut {
    type V = ShortcutView;

    open spec fn view(&self) -> ShortcutView {
        ShortcutView { name: self.name@, command: self.command@, created_at: self.created_at }
    }
}

impl Clone for Shortcut {
    fn clone(&self) -> (copy: Shortcut)
        ensures
            copy@ == self@,
    {
        Shortcut {
            name: self.name.clone(),
            command: self.command.clone(),
            created_at: self.created_at,
        }
    }
}

/// A shortcut as it stands in the persisted file, where the time of
/// creation may be missing.
#[derive(Debug, PartialEq, Eq)]
pub struct ShortcutRecord {
    pub name: String,
    pub command: String,
    pub created_at: Option<u64>,
}

/// Why a change to the store was refused.
#[derive(Debug, PartialEq, Eq)]
pub enum ShortcutError {
    /// A shortcut of this name exists already.
    DuplicateName(String),
    /// No shortcut has the name that was asked for.
    NotFound,
}

/// A refusal as a plain value.
pub enum ShortcutErrorView {
    DuplicateName(Seq<char>),
    NotFound,
}

impl View for ShortcutError {
    type V = ShortcutErrorView;

    open spec fn view(&self) -> ShortcutErrorView {
        match self {
            ShortcutError::DuplicateName(name) => ShortcutErrorView::DuplicateName(name@),
            ShortcutError::NotFound => ShortcutErrorView::NotFound,
        }
    }
}

/// The shortcuts, in the order in which they were added.
#[derive(Debug, PartialEq, Eq)]
pub struct Shortcuts {
    pub items: Vec<Shortcut>,
}

impl View for Shortcuts {
    type V = Seq<ShortcutView>;

    open spec fn view(&self) -> Seq<ShortcutView> {
        self.items@.map_values(|item: Shortcut| item@)
    }
}

/// The slug of a name: the name trimmed, with a hyphen for every space, in
/// lowercase.
pub open spec fn slug_of(name: Seq<char>) -> Seq<char> {
    lowercased(replaced(trimmed(name), ' ', seq!['-']))
}

/// Whether a shortcut of `items` has exactly the name `name`.
pub open spec fn has_name(items: Seq<ShortcutView>, name: Seq<char>) -> bool {
    exists|i: int| 0 <= i < items.len() && (#[trigger] items[i]).name == name
}

/// Whether a shortcut of `items` has a name whose lowercase form is `slug`.
pub open spec fn has_slug(items: Seq<ShortcutView>, slug: Seq<char>) -> bool {
    exists|i: int| 0 <= i < items.len() && lowercased((#[trigger] items[i]).name) == slug
}

/// Whether `at` is the place of the first shortcut named `name`.
pub open spec fn is_first_named(items: Seq<ShortcutView>, name: Seq<char>, at: int) -> bool {
    &&& 0 <= at < items.len()
    &&& items[at].name == name
    &&& forall|k: int| 0 <= k < at ==> (#[trigger] items[k]).name != name
}

/// The place of the first shortcut named `name`, where there is one.
pub open spec fn first_named(items: Seq<ShortcutView>, name: Seq<char>) -> int {
    choose|at: int| is_first_named(items, name, at)
}

/// Whether no two shortcuts of `items` have the same name, whatever the case
/// of their letters: their names differ even in lowercase.
pub open spec fn names_distinct(items: Seq<ShortcutView>) -> bool {
    forall|i: int, j: int|
        0 <= i < j < items.len() ==> lowercased((#[trigger] items[i]).name) != lowercased(
            (#[trigger] items[j]).name,
        )
}

/// Whether the name `stored` stands in the way of a shortcut being given the
/// name `new_name`: the two agree in lowercase, or `stored` in lowercase is
/// the slug under which the new name would be kept.
pub open spec fn collides(stored: Seq<char>, new_name: Seq<char>) -> bool {
    lowercased(stored) == lowercased(new_name) || lowercased(stored) == slug_of(new_name)
}

/// The place of the shortcut that a rename of `old_name` is about: that of
/// the first shortcut of exactly that name, or none.
pub open spec fn place_of(items: Seq<ShortcutView>, old_name: Seq<char>) -> Option<int> {
    if has_name(items, old_name) {
        Some(first_named(items, old_name))
    } else {
        None
    }
}

/// Whether a shortcut of `items` other than the one at `place` has a name
/// that stands in the way of `new_name`.
pub open spec fn taken_elsewhere(
    items: Seq<ShortcutView>,
    place: Option<int>,
    new_name: Seq<char>,
) -> bool {
    exists|i: int|
        0 <= i < items.len() && place != Some(i) && collides((#[trigger] items[i]).name, new_name)
}

/// The name under which a renamed shortcut is kept: the name it has, if it
/// is renamed to that; else the slug of the new name.
pub open spec fn kept_name(old_name: Seq<char>, new_name: Seq<char>) -> Seq<char> {
    if old_name == new_name {
        old_name
    } else {
        slug_of(new_name)
    }
}

/// What adding a shortcut does: refused if the slug of `name` is taken,
/// whatever the case of the name that holds it; otherwise the shortcut goes
/// to the end, under its slug.
pub open spec fn add_result(
    items: Seq<ShortcutView>,
    name: Seq<char>,
    command: Seq<char>,
    created_at: u64,
) -> Result<Seq<ShortcutView>, ShortcutErrorView> {
    if has_slug(items, slug_of(name)) {
        Err(ShortcutErrorView::DuplicateName(slug_of(name)))
    } else {
        Ok(items.push(ShortcutView { name: slug_of(name), command, created_at }))
    }
}

/// What removing by name leaves: the store without the first shortcut of
/// exactly that name, or the store as it was if there is none.
pub open spec fn remove_result(items: Seq<ShortcutView>, name: Seq<char>) -> Seq<ShortcutView> {
    if has_name(items, name) {
        items.remove(first_named(items, name))
    } else {
        items
    }
}

/// What renaming does: refused if the new name differs from the old one and
/// another shortcut's name stands in its way, whatever the case of either,
/// or if nothing has the old name; otherwise the first shortcut of the old
/// name gets the command and is kept under the slug of the new name, in its
/// place and with its time of creation. A rename to the name that the
/// shortcut has leaves the name alone.
pub open spec fn rename_result(
    items: Seq<ShortcutView>,
    old_name: Seq<char>,
    new_name: Seq<char>,
    command: Seq<char>,
) -> Result<Seq<ShortcutView>, ShortcutErrorView> {
    if old_name != new_name && taken_elsewhere(items, place_of(items, old_name), new_name) {
        Err(ShortcutErrorView::DuplicateName(new_name))
    } else if !has_name(items, old_name) {
        Err(ShortcutErrorView::NotFound)
    } else {
        let at = first_named(items, old_name);
        Ok(
            items.update(
                at,
                ShortcutView {
                    name: kept_name(old_name, new_name),
                    command,
                    created_at: items[at].created_at,
                },
            ),
        )
    }
}

/// What looking up by name finds: the first shortcut of exactly that name.
pub open spec fn find_result(items: Seq<ShortcutView>, name: Seq<char>) -> Option<ShortcutView> {
    if has_name(items, name) {
        Some(items[first_named(items, name)])
    } else {
        None
    }
}

/// The first shortcut of a name is where `is_first_named` says.
pub proof fn lemma_first_named(items: Seq<ShortcutView>, name: Seq<char>, at: int)
    requires
        is_first_named(items, name, at),
    ensures
        first_named(items, name) == at,
        has_name(items, name),
{
    let chosen = first_named(items, name);
    assert(is_first_named(items, name, chosen));
    if chosen < at {
        assert(items[chosen].name != name);
    }
    if at < chosen {
        assert(items[at].name != name);
    }
}

/// The store that a persisted file restores to: the shortcuts of the file in
/// their order, each without a time of creation getting `now`; an absent or
/// unreadable file gives the empty store.
pub open spec fn restored(persisted: Option<Vec<ShortcutRecord>>, now: u64) -> Seq<ShortcutView> {
    match persisted {
        Some(records) => records@.map_values(
            |record: ShortcutRecord|
                ShortcutView {
                    name: record.name@,
                    command: record.command@,
                    created_at: match record.created_at {
                        Some(at) => at,
                        None => now,
                    },
                },
        ),
        None => Seq::empty(),
    }
}

/// Whether `records` is what persisting `items` writes: every shortcut in
/// its place, with its time of creation.
pub open spec fn persists(records: Seq<ShortcutRecord>, items: Seq<ShortcutView>) -> bool {
    &&& records.len() == items.len()
    &&& forall|i: int|
        0 <= i < records.len() ==> {
            &&& (#[trigger] records[i]).name@ == items[i].name
            &&& records[i].command@ == items[i].command
            &&& records[i].created_at == Some(items[i].created_at)
        }
}

/// `SystemTime::elapsed` on the Unix epoch: the whole seconds that have
/// passed since then by the system clock, zero for a clock that stands
/// before the epoch. Trusted to return; nothing is claimed of the value.
#[verifier::external_body]
pub(crate) fn default_timestamp() -> (seconds: u64) {
    match std::time::UNIX_EPOCH.elapsed() {
        Ok(since) => since.as_secs(),
        Err(_) => 0,
    }
}

/// The slug of `name`.
fn slug(name: &str) -> (slug: String)
    ensures
        slug@ == slug_of(name@),
{
    proof {
        reveal_strlit("-");
        assert("-"@ == seq!['-']);
    }
    let hyphenated = replace(trim(name), ' ', "-");
    to_lowercase(hyphenated.as_str())
}

impl ShortcutError {
    /// The refusal in words.
    pub fn message(&self) -> (text: String)
        ensures
            text@ == match self@ {
                ShortcutErrorView::DuplicateName(name) => "Shortcut '"@ + name + "' already exists"@,
                ShortcutErrorView::NotFound => "Shortcut not found"@,
            },
    {
        match self {
            ShortcutError::DuplicateName(name) => {
                let mut text = "Shortcut '".to_owned();
                text.append(name.as_str());
                text.append("' already exists");
                text
            },
            ShortcutError::NotFound => "Shortcut not found".to_owned(),
        }
    }
}

impl Default for Shortcuts {
    fn default() -> (store: Shortcuts)
        ensures
            store@ == Seq::<ShortcutView>::empty(),
            names_distinct(store@),
    {
        Shortcuts { items: Vec::new() }
    }
}

impl Shortcuts {
    /// The place of the first shortcut of exactly the name `name`.
    fn position(&self, name: &String) -> (place: Option<usize>)
        ensures
            place is Some <==> has_name(self@, name@),
            place matches Some(at) ==> at == first_named(self@, name@) && is_first_named(
                self@,
                name@,
                at as int,
            ),
    {
        let mut i: usize = 0;
        while i < self.items.len()
            invariant
                0 <= i <= self.items@.len(),
                forall|k: int| 0 <= k < i ==> (#[trigger] self@[k]).name != name@,
            decreases self.items@.len() - i,
        {
            if self.items[i].name == *name {
                proof {
                    lemma_first_named(self@, name@, i as int);
                }
                return Some(i);
            }
            i = i + 1;
        }
        None
    }

    /// Whether a shortcut other than the one at `place` has a name that
    /// stands in the way of `new_name`.
    fn holds_elsewhere(&self, place: Option<usize>, new_name: &String) -> (held: bool)
        ensures
            held == taken_elsewhere(
                self@,
                match place {
                    Some(at) => Some(at as int),
                    None => None,
                },
                new_name@,
            ),
    {
        let ghost skip: Option<int> = match place {
            Some(at) => Some(at as int),
            None => None,
        };
        let lowered = to_lowercase(new_name.as_str());
        let slug = slug(new_name.as_str());
        let mut i: usize = 0;
        while i < self.items.len()
            invariant
                0 <= i <= self.items@.len(),
                lowered@ == lowercased(new_name@),
                slug@ == slug_of(new_name@),
                skip == match place {
                    Some(at) => Some(at as int),
                    None => None,
                },
                forall|k: int|
                    0 <= k < i && skip != Some(k) ==> !collides((#[trigger] self@[k]).name, new_name@),
            decreases self.items@.len() - i,
        {
            let skipped = match place {
                Some(at) => at == i,
                None => false,
            };
            if !skipped {
                let stored = to_lowercase(self.items[i].name.as_str());
                if stored == lowered || stored == slug {
                    assert(collides(self@[i as int].name, new_name@));
                    return true;
                }
            }
            i = i + 1;
        }
        false
    }

    /// Whether a shortcut has a name whose lowercase form is `slug`.
    fn holds_slug(&self, slug: &String) -> (held: bool)
        ensures
            held == has_slug(self@, slug@),
    {
        let mut i: usize = 0;
        while i < self.items.len()
            invariant
                0 <= i <= self.items@.len(),
                forall|k: int| 0 <= k < i ==> lowercased((#[trigger] self@[k]).name) != slug@,
            decreases self.items@.len() - i,
        {
            let lowered = to_lowercase(self.items[i].name.as_str());
            if lowered == *slug {
                assert(lowercased(self@[i as int].name) == slug@);
                return true;
            }
            i = i + 1;
        }
        false
    }

    /// The store that a persisted file restores to, with the current time
    /// for every shortcut whose time of creation the file does not give.
    /// `persisted` is `None` for a file that is absent, unreadable or not a
    /// valid store, which gives the empty store.
    pub fn load(persisted: Option<Vec<ShortcutRecord>>) -> (store: Shortcuts)
        ensures
            exists|now: u64| store@ == #[trigger] restored(persisted, now),
    {
        let now = default_timestamp();
        Shortcuts::load_at(persisted, now)
    }

    /// The store that a persisted file restores to, with `now` for every
    /// shortcut whose time of creation the file does not give.
    pub fn load_at(persisted: Option<Vec<ShortcutRecord>>, now: u64) -> (store: Shortcuts)
        ensures
            store@ == restored(persisted, now),
    {
        let mut items: Vec<Shortcut> = Vec::new();
        match persisted {
            Some(records) => {
                let ghost target = restored(persisted, now);
                let mut i: usize = 0;
                while i < records.len()
                    invariant
                        0 <= i <= records@.len(),
                        target == restored(Some(records), now),
                        items@.len() == i,
                        forall|k: int| 0 <= k < i ==> (#[trigger] items@[k])@ == target[k],
                    decreases records@.len() - i,
                {
                    let record = &records[i];
                    items.push(
                        Shortcut {
                            name: record.name.clone(),
                            command: record.command.clone(),
                            created_at: match record.created_at {
                                Some(at) => at,
                                None => now,
                            },
                        },
                    );
                    i = i + 1;
                }
                let store = Shortcuts { items };
                assert(store@ =~= target);
                store
            },
            None => {
                let store = Shortcuts { items };
                assert(store@ =~= Seq::<ShortcutView>::empty());
                store
            },
        }
    }

    /// What is written to the persisted file: every shortcut in its place,
    /// with its time of creation.
    pub fn save(&self) -> (records: Vec<ShortcutRecord>)
        ensures
            persists(records@, self@),
    {
        let mut records: Vec<ShortcutRecord> = Vec::new();
        let mut i: usize = 0;
        while i < self.items.len()
            invariant
                0 <= i <= self.items@.len(),
                records@.len() == i,
                forall|k: int|
                    0 <= k < i ==> {
                        &&& (#[trigger] records@[k]).name@ == self@[k].name
                        &&& records@[k].command@ == self@[k].command
                        &&& records@[k].created_at == Some(self@[k].created_at)
                    },
            decreases self.items@.len() - i,
        {
            let item = &self.items[i];
            records.push(
                ShortcutRecord {
                    name: item.name.clone(),
                    command: item.command.clone(),
                    created_at: Some(item.created_at),
                },
            );
            i = i + 1;
        }
        records
    }

    /// Adds a shortcut, created now, under the slug of `name`. Refused, with
    /// the store unchanged, if a shortcut holds that slug already.
    pub fn add(&mut self, name: String, command: String) -> (outcome: Result<(), ShortcutError>)
        ensures
            exists|now: u64|
                #![trigger add_result(old(self)@, name@, command@, now)]
                match add_result(old(self)@, name@, command@, now) {
                    Ok(items) => outcome is Ok && final(self)@ == items,
                    Err(refusal) => outcome matches Err(error) && error@ == refusal && final(self)@
                        == old(self)@,
                },
            names_distinct(old(self)@) && lowercased(slug_of(name@)) == slug_of(name@)
                ==> names_distinct(final(self)@),
    {
        let now = default_timestamp();
        self.add_at(name, command, now)
    }

    /// Adds a shortcut, created at `created_at`, under the slug of `name`.
    /// Refused, with the store unchanged, if a shortcut holds that slug
    /// already.
    pub fn add_at(&mut self, name: String, command: String, created_at: u64) -> (outcome: Result<
        (),
        ShortcutError,
    >)
        ensures
            match add_result(old(self)@, name@, command@, created_at) {
                Ok(items) => outcome is Ok && final(self)@ == items,
                Err(refusal) => outcome matches Err(error) && error@ == refusal && final(self)@
                    == old(self)@,
            },
            names_distinct(old(self)@) && lowercased(slug_of(name@)) == slug_of(name@)
                ==> names_distinct(final(self)@),
    {
        proof {
            if names_distinct(old(self)@) && lowercased(slug_of(name@)) == slug_of(name@)
                && add_result(old(self)@, name@, command@, created_at) is Ok {
                lemma_add_keeps_names_distinct(old(self)@, name@, command@, created_at);
            }
        }
        let slug = slug(name.as_str());
        if self.holds_slug(&slug) {
            return Err(ShortcutError::DuplicateName(slug));
        }
        self.items.push(Shortcut { name: slug, command, created_at });
        assert(self@ =~= old(self)@.push(
            ShortcutView { name: slug_of(name@), command: command@, created_at },
        ));
        Ok(())
    }

    /// Removes the first shortcut of exactly the name `name`, and says
    /// whether there was one.
    pub fn remove_by_name(&mut self, name: &str) -> (removed: bool)
        ensures
            removed == has_name(old(self)@, name@),
            final(self)@ == remove_result(old(self)@, name@),
            !removed ==> final(self)@ == old(self)@,
            names_distinct(old(self)@) ==> names_distinct(final(self)@),
    {
        proof {
            if names_distinct(old(self)@) {
                lemma_remove_keeps_names_distinct(old(self)@, name@);
            }
        }
        let wanted = name.to_owned();
        match self.position(&wanted) {
            Some(at) => {
                self.items.remove(at);
                assert(self@ =~= old(self)@.remove(at as int));
                true
            },
            None => false,
        }
    }

    /// Gives the first shortcut named `old_name` the command `command` and
    /// keeps it, in its place, under the slug of `new_name`; renamed to the
    /// name it has, it keeps that name as it is. Refused, with the store
    /// unchanged, if the new name differs from the old one and the name of
    /// another shortcut stands in its way, whatever the case of either, or if
    /// no shortcut has the old name.
    pub fn rename(&mut self, old_name: &str, new_name: String, command: String) -> (outcome: Result<
        (),
        ShortcutError,
    >)
        ensures
            match rename_result(old(self)@, old_name@, new_name@, command@) {
                Ok(items) => outcome is Ok && final(self)@ == items,
                Err(refusal) => outcome matches Err(error) && error@ == refusal && final(self)@
                    == old(self)@,
            },
            names_distinct(old(self)@) && (old_name@ == new_name@ || lowercased(slug_of(new_name@))
                == slug_of(new_name@)) ==> names_distinct(final(self)@),
    {
        proof {
            if names_distinct(old(self)@) && (old_name@ == new_name@ || lowercased(
                slug_of(new_name@),
            ) == slug_of(new_name@)) && rename_result(
                old(self)@,
                old_name@,
                new_name@,
                command@,
            ) is Ok {
                lemma_rename_keeps_names_distinct(old(self)@, old_name@, new_name@, command@);
            }
        }
        let wanted = old_name.to_owned();
        let place = self.position(&wanted);
        let same = wanted == new_name;
        if !same && self.holds_elsewhere(place, &new_name) {
            return Err(ShortcutError::DuplicateName(new_name));
        }
        match place {
            Some(at) => {
                let created_at = self.items[at].created_at;
                let name = if same {
                    new_name
                } else {
                    slug(new_name.as_str())
                };
                let ghost renamed = ShortcutView { name: name@, command: command@, created_at };
                self.items.set(at, Shortcut { name, command, created_at });
                assert(self@ =~= old(self)@.update(at as int, renamed));
                Ok(())
            },
            None => Err(ShortcutError::NotFound),
        }
    }

    /// The first shortcut of exactly the name `name`.
    pub fn find(&self, name: &str) -> (found: Option<Shortcut>)
        ensures
            match find_result(self@, name@) {
                Some(item) => found matches Some(copy) && copy@ == item,
                None => found is None,
            },
    {
        let wanted = name.to_owned();
        match self.position(&wanted) {
            Some(at) => Some(self.items[at].clone()),
            None => None,
        }
    }
}

/// Once a name has been added, a second name is refused as a duplicate
/// whenever its slug is the lowercase form of the slug that was stored, as
/// it is for the same name in another case or with hyphens for its spaces.
pub proof fn lemma_added_slug_is_taken(
    items: Seq<ShortcutView>,
    first: Seq<char>,
    first_command: Seq<char>,
    first_created_at: u64,
    second: Seq<char>,
    second_command: Seq<char>,
    second_created_at: u64,
)
    requires
        add_result(items, first, first_command, first_created_at) is Ok,
        slug_of(second) == lowercased(slug_of(first)),
    ensures
        add_result(
            add_result(items, first, first_command, first_created_at)->Ok_0,
            second,
            second_command,
            second_created_at,
        ) == Err::<Seq<ShortcutView>, ShortcutErrorView>(
            ShortcutErrorView::DuplicateName(slug_of(second)),
        ),
{
    let after = add_result(items, first, first_command, first_created_at)->Ok_0;
    assert(lowercased(after[items.len() as int].name) == slug_of(second));
}

/// Renaming a shortcut to the name it has is never refused, and changes its
/// command and nothing else: every shortcut keeps its place, its name and
/// its time of creation.
pub proof fn lemma_rename_to_same_name(
    items: Seq<ShortcutView>,
    name: Seq<char>,
    command: Seq<char>,
)
    requires
        has_name(items, name),
    ensures
        rename_result(items, name, name, command) is Ok,
        ({
            let after = rename_result(items, name, name, command)->Ok_0;
            let at = first_named(items, name);
            &&& after.len() == items.len()
            &&& 0 <= at < items.len()
            &&& after[at].command == command
            &&& forall|i: int|
                0 <= i < items.len() ==> {
                    &&& (#[trigger] after[i]).name == items[i].name
                    &&& after[i].created_at == items[i].created_at
                    &&& i != at ==> after[i] == items[i]
                }
        }),
{
    let witness = choose|i: int| 0 <= i < items.len() && (#[trigger] items[i]).name == name;
    lemma_first_named_exists(items, name, witness);
}

/// A store that holds a name has a first shortcut of it.
pub proof fn lemma_first_named_exists(items: Seq<ShortcutView>, name: Seq<char>, at: int)
    requires
        0 <= at < items.len(),
        items[at].name == name,
    ensures
        is_first_named(items, name, first_named(items, name)),
        first_named(items, name) <= at,
    decreases at,
{
    if exists|k: int| 0 <= k < at && (#[trigger] items[k]).name == name {
        let earlier = choose|k: int| 0 <= k < at && (#[trigger] items[k]).name == name;
        lemma_first_named_exists(items, name, earlier);
    } else {
        assert(is_first_named(items, name, at));
        lemma_first_named(items, name, at);
    }
}

/// Removing by name keeps the names of a store distinct.
pub proof fn lemma_remove_keeps_names_distinct(items: Seq<ShortcutView>, name: Seq<char>)
    requires
        names_distinct(items),
    ensures
        names_distinct(remove_result(items, name)),
{
    if has_name(items, name) {
        let witness = choose|i: int| 0 <= i < items.len() && (#[trigger] items[i]).name == name;
        lemma_first_named_exists(items, name, witness);
        let at = first_named(items, name);
        let after = items.remove(at);
        assert forall|i: int, j: int| 0 <= i < j < after.len() implies lowercased(
            (#[trigger] after[i]).name,
        ) != lowercased((#[trigger] after[j]).name) by {
            let from_i = if i < at {
                i
            } else {
                i + 1
            };
            let from_j = if j < at {
                j
            } else {
                j + 1
            };
            assert(after[i] == items[from_i]);
            assert(after[j] == items[from_j]);
        }
    }
}

/// Renaming keeps the names of a store distinct: always when a shortcut is
/// renamed to the name it has, and otherwise whenever the slug that is
/// stored is its own lowercase form.
pub proof fn lemma_rename_keeps_names_distinct(
    items: Seq<ShortcutView>,
    old_name: Seq<char>,
    new_name: Seq<char>,
    command: Seq<char>,
)
    requires
        names_distinct(items),
        rename_result(items, old_name, new_name, command) is Ok,
        old_name == new_name || lowercased(slug_of(new_name)) == slug_of(new_name),
    ensures
        names_distinct(rename_result(items, old_name, new_name, command)->Ok_0),
{
    let witness = choose|i: int| 0 <= i < items.len() && (#[trigger] items[i]).name == old_name;
    lemma_first_named_exists(items, old_name, witness);
    let at = first_named(items, old_name);
    let after = rename_result(items, old_name, new_name, command)->Ok_0;
    assert forall|i: int, j: int| 0 <= i < j < after.len() implies lowercased(
        (#[trigger] after[i]).name,
    ) != lowercased((#[trigger] after[j]).name) by {
        if i != at && j != at {
            assert(after[i] == items[i]);
            assert(after[j] == items[j]);
        } else {
            let other = if i == at {
                j
            } else {
                i
            };
            assert(after[other] == items[other]);
            if old_name == new_name {
                assert(after[at].name == items[at].name);
            } else {
                assert(!collides(items[other].name, new_name));
            }
        }
    }
}

/// Adding keeps the names of a store distinct whenever the slug that is
/// stored is its own lowercase form.
pub proof fn lemma_add_keeps_names_distinct(
    items: Seq<ShortcutView>,
    name: Seq<char>,
    command: Seq<char>,
    created_at: u64,
)
    requires
        names_distinct(items),
        add_result(items, name, command, created_at) is Ok,
        lowercased(slug_of(name)) == slug_of(name),
    ensures
        names_distinct(add_result(items, name, command, created_at)->Ok_0),
{
    let after = add_result(items, name, command, created_at)->Ok_0;
    assert forall|i: int, j: int| 0 <= i < j < after.len() implies lowercased(
        (#[trigger] after[i]).name,
    ) != lowercased((#[trigger] after[j]).name) by {
        assert(after[i] == items[i]);
        if j < items.len() {
            assert(after[j] == items[j]);
        } else {
            assert(lowercased(items[i].name) != slug_of(name));
        }
    }
}

/// A rename to a name that another shortcut has, in whatever case of
/// letters, is refused as a duplicate and changes nothing.
pub proof fn lemma_rename_to_taken_name_is_refused(
    items: Seq<ShortcutView>,
    old_name: Seq<char>,
    new_name: Seq<char>,
    command: Seq<char>,
    other: int,
)
    requires
        old_name != new_name,
        0 <= other < items.len(),
        place_of(items, old_name) != Some(other),
        lowercased(items[other].name) == lowercased(new_name),
    ensures
        rename_result(items, old_name, new_name, command) == Err::<
            Seq<ShortcutView>,
            ShortcutErrorView,
        >(ShortcutErrorView::DuplicateName(new_name)),
{
    assert(collides(items[other].name, new_name));
}

/// What was persisted restores to the very store it was taken from,
/// whatever the time of the restoring.
pub proof fn lemma_restore_of_persisted(
    records: Vec<ShortcutRecord>,
    items: Seq<ShortcutView>,
    now: u64,
)
    requires
        persists(records@, items),
    ensures
        restored(Some(records), now) == items,
{
    assert(restored(Some(records), now) =~= items);
}

} // verus!
