//! Bookkeeping for the addons of a build: which resolved addons the new
//! lockfile records, and which files of the previous build are left over.
//!
//! Resolving and fetching an addon, and deleting a file, happen outside this
//! library. The library is handed what was resolved and says what to record
//! and what to delete.

use vstd::prelude::*;

verus! {

/// The two kinds of addon, which are kept apart in a lockfile.
#[derive(Debug, Clone, Copy, PartialEq, Eq, Structural)]
pub enum AddonType {
    Plugin,
    Mod,
}

/// An addon as it was asked for, with the file it was resolved to.
#[derive(Debug, Clone, PartialEq, Eq)]
pub struct ResolvedAddon {
    /// The addon as the server's configuration names it.
    pub addon: String,
    /// The name of the file that holds it.
    pub filename: String,
}

/// What a build resolved, by kind of addon.
#[derive(Debug, Clone, PartialEq, Eq)]
pub struct Lockfile {
    pub plugins: Vec<ResolvedAddon>,
    pub mods: Vec<ResolvedAddon>,
}

impl Lockfile {
    /// The entries of one kind.
    pub open spec fn of(self, addon_type: AddonType) -> Seq<ResolvedAddon> {
        match addon_type {
            AddonType::Plugin => self.plugins@,
            AddonType::Mod => self.mods@,
        }
    }

    /// The entries of the other kind.
    pub open spec fn other(self, addon_type: AddonType) -> Seq<ResolvedAddon> {
        match addon_type {
            AddonType::Plugin => self.mods@,
            AddonType::Mod => self.plugins@,
        }
    }
}

/// The texts of a sequence of strings, one for one.
pub open spec fn texts(names: Seq<String>) -> Seq<Seq<char>> {
    names.map_values(|n: String| n@)
}

/// The file names of a sequence of resolved addons, one for one.
pub open spec fn filenames(entries: Seq<ResolvedAddon>) -> Seq<Seq<char>> {
    entries.map_values(|e: ResolvedAddon| e.filename@)
}

/// The names of `old` that are not among `kept`, each once, in the order in
/// which they first occur in `old`.
pub open spec fn stale_names(old: Seq<Seq<char>>, kept: Seq<Seq<char>>) -> Seq<Seq<char>>
    decreases old.len(),
{
    if old.len() == 0 {
        seq![]
    } else {
        let before = stale_names(old.drop_last(), kept);
        let name = old.last();
        if kept.contains(name) || before.contains(name) {
            before
        } else {
            before.push(name)
        }
    }
}

/// The names of `names`, each once, in the order in which they first occur.
pub open spec fn distinct_names(names: Seq<Seq<char>>) -> Seq<Seq<char>> {
    stale_names(names, seq![])
}

/// The stale names are the names of `old` that `kept` lacks, and none of
/// them occurs twice.
pub proof fn lemma_stale_names(old: Seq<Seq<char>>, kept: Seq<Seq<char>>)
    ensures
        forall|name: Seq<char>| #[trigger]
            stale_names(old, kept).contains(name) <==> old.contains(name) && !kept.contains(name),
        stale_names(old, kept).no_duplicates(),
    decreases old.len(),
{
    let stale = stale_names(old, kept);
    if old.len() == 0 {
    } else {
        let before = stale_names(old.drop_last(), kept);
        let last = old.last();
        lemma_stale_names(old.drop_last(), kept);
        assert forall|name: Seq<char>| #[trigger]
            stale.contains(name) <==> old.contains(name) && !kept.contains(name) by {
            if old.contains(name) {
                let i = choose|i: int| 0 <= i < old.len() && old[i] == name;
                if i < old.len() - 1 {
                    assert(old.drop_last()[i] == name);
                    assert(old.drop_last().contains(name));
                }
            }
            if old.drop_last().contains(name) {
                let i = choose|i: int| 0 <= i < old.drop_last().len() && old.drop_last()[i] == name;
                assert(old[i] == name);
            }
            if kept.contains(last) || before.contains(last) {
            } else {
                if before.contains(name) {
                    let i = choose|i: int| 0 <= i < before.len() && before[i] == name;
                    assert(stale[i] == name);
                }
                assert(stale[stale.len() - 1] == last);
                if stale.contains(name) {
                    let i = choose|i: int| 0 <= i < stale.len() && stale[i] == name;
                    if i < before.len() {
                        assert(before[i] == name);
                    }
                }
            }
        }
    }
}

/// The ending that makes a noun fit `count`: none for one, "s" otherwise.
pub fn plural_suffix(count: usize) -> (suffix: &'static str)
    ensures
        suffix@ == (if count == 1 {
            ""@
        } else {
            "s"@
        }),
{
    if count == 1 {
        ""
    } else {
        "s"
    }
}

fn holds(names: &Vec<String>, name: &String) -> (b: bool)
    ensures
        b == texts(names@).contains(name@),
{
    let mut i: usize = 0;
    while i < names.len()
        invariant
            i <= names.len(),
            forall|j: int| 0 <= j < i ==> texts(names@)[j] != name@,
        decreases names.len() - i,
    {
        if names[i] == *name {
            assert(texts(names@)[i as int] == name@);
            return true;
        }
        i += 1;
    }
    false
}

/// The file names of `entries`, one for one.
pub fn file_names(entries: &Vec<ResolvedAddon>) -> (names: Vec<String>)
    ensures
        texts(names@) == filenames(entries@),
{
    let mut names: Vec<String> = Vec::new();
    let mut i: usize = 0;
    while i < entries.len()
        invariant
            i <= entries.len(),
            texts(names@) == filenames(entries@.take(i as int)),
        decreases entries.len() - i,
    {
        let ghost before = texts(names@);
        let name = entries[i].filename.clone();
        names.push(name);
        assert(texts(names@) =~= before.push(entries[i as int].filename@));
        assert(entries@.take(i + 1) =~= entries@.take(i as int).push(entries[i as int]));
        assert(filenames(entries@.take(i + 1)) =~= before.push(entries[i as int].filename@));
        i += 1;
    }
    assert(entries@.take(entries.len() as int) =~= entries@);
    names
}

/// The names of `old` that are not among `kept`, each once, in the order in
/// which they first occur in `old`.
pub fn stale_files(old: &Vec<String>, kept: &Vec<String>) -> (stale: Vec<String>)
    ensures
        texts(stale@) == stale_names(texts(old@), texts(kept@)),
{
    let mut stale: Vec<String> = Vec::new();
    let ghost all = texts(old@);
    let mut i: usize = 0;
    assert(all.take(0) =~= Seq::<Seq<char>>::empty());
    assert(texts(stale@) =~= Seq::<Seq<char>>::empty());
    while i < old.len()
        invariant
            i <= old.len(),
            all == texts(old@),
            texts(stale@) == stale_names(all.take(i as int), texts(kept@)),
        decreases old.len() - i,
    {
        proof {
            assert(all.take(i + 1).drop_last() =~= all.take(i as int));
            assert(all.take(i + 1).last() == old[i as int]@);
        }
        let known = holds(kept, &old[i]);
        let seen = known || holds(&stale, &old[i]);
        if !seen {
            let ghost before = texts(stale@);
            stale.push(old[i].clone());
            assert(texts(stale@) =~= before.push(old[i as int]@));
        }
        i += 1;
    }
    assert(all.take(old.len() as int) =~= all);
    stale
}

/// What is left to do once the addons of one kind are resolved.
#[derive(Debug, Clone, PartialEq, Eq)]
pub struct AddonReport {
    /// Files of the previous build that no addon resolves to any more.
    pub stale: Vec<String>,
    /// How many different files the addons resolved to.
    pub processed: usize,
}

/// The lockfile of the previous build and the one that the build under way
/// fills.
#[derive(Debug, Clone, PartialEq, Eq)]
pub struct BuildContext {
    pub lockfile: Lockfile,
    pub new_lockfile: Lockfile,
}

impl BuildContext {
    /// Records the addons of one kind that the build resolved, in order,
    /// behind what the new lockfile holds already, and reports the files of
    /// the previous build that none of them resolves to. The previous
    /// lockfile and the other kind stay as they are.
    pub fn download_addons(&mut self, addon_type: AddonType, resolved: Vec<ResolvedAddon>) -> (report:
        AddonReport)
        ensures
            final(self).lockfile == old(self).lockfile,
            final(self).new_lockfile.of(addon_type) == old(self).new_lockfile.of(addon_type)
                + resolved@,
            final(self).new_lockfile.other(addon_type) == old(self).new_lockfile.other(addon_type),
            texts(report.stale@) == stale_names(
                filenames(old(self).lockfile.of(addon_type)),
                filenames(resolved@),
            ),
            report.processed == distinct_names(filenames(resolved@)).len(),
    {
        let files = file_names(&resolved);
        let existing = match addon_type {
            AddonType::Plugin => file_names(&self.lockfile.plugins),
            AddonType::Mod => file_names(&self.lockfile.mods),
        };
        let stale = stale_files(&existing, &files);
        let nothing: Vec<String> = Vec::new();
        assert(texts(nothing@) =~= Seq::<Seq<char>>::empty());
        let processed = stale_files(&files, &nothing).len();
        let mut resolved = resolved;
        match addon_type {
            AddonType::Plugin => self.new_lockfile.plugins.append(&mut resolved),
            AddonType::Mod => self.new_lockfile.mods.append(&mut resolved),
        }
        AddonReport { stale, processed }
    }
}

} // verus!
