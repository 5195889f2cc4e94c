use hot_reload::addons::{
    file_names, plural_suffix, stale_files, AddonReport, AddonType, BuildContext, Lockfile,
    ResolvedAddon,
};
use hot_reload::text::{terminate_line, trim_line};

fn entry(addon: &str, filename: &str) -> ResolvedAddon {
    ResolvedAddon { addon: addon.to_string(), filename: filename.to_string() }
}

fn names(list: &[&str]) -> Vec<String> {
    list.iter().map(|n| n.to_string()).collect()
}

#[test]
fn stale_files_are_the_old_ones_that_are_not_kept() {
    let old = names(&["a.jar", "b.jar", "c.jar"]);
    let kept = names(&["b.jar", "d.jar"]);
    assert_eq!(stale_files(&old, &kept), names(&["a.jar", "c.jar"]));
}

#[test]
fn stale_files_come_once_each() {
    let old = names(&["a.jar", "b.jar", "a.jar", "c.jar", "b.jar"]);
    assert_eq!(stale_files(&old, &names(&["c.jar"])), names(&["a.jar", "b.jar"]));
    assert_eq!(stale_files(&old, &vec![]), names(&["a.jar", "b.jar", "c.jar"]));
    assert_eq!(stale_files(&vec![], &old), names(&[]));
    assert_eq!(stale_files(&old, &old), names(&[]));
}

#[test]
fn file_names_keep_order() {
    let entries = vec![entry("x", "x-1.jar"), entry("y", "y-2.jar")];
    assert_eq!(file_names(&entries), names(&["x-1.jar", "y-2.jar"]));
    assert_eq!(file_names(&vec![]), names(&[]));
}

#[test]
fn download_addons_records_and_reports() {
    let mut context = BuildContext {
        lockfile: Lockfile {
            plugins: vec![entry("essentials", "essentials-1.jar"), entry("vault", "vault.jar")],
            mods: vec![entry("lithium", "lithium.jar")],
        },
        new_lockfile: Lockfile { plugins: vec![], mods: vec![] },
    };
    let before = context.lockfile.clone();
    let resolved = vec![entry("essentials", "essentials-2.jar"), entry("vault", "vault.jar")];
    let report = context.download_addons(AddonType::Plugin, resolved.clone());
    assert_eq!(
        report,
        AddonReport { stale: names(&["essentials-1.jar"]), processed: 2 }
    );
    assert_eq!(context.new_lockfile.plugins, resolved);
    assert_eq!(context.new_lockfile.mods, vec![]);
    assert_eq!(context.lockfile, before);
}

#[test]
fn download_addons_keeps_the_kinds_apart() {
    let mut context = BuildContext {
        lockfile: Lockfile {
            plugins: vec![entry("vault", "vault.jar")],
            mods: vec![entry("lithium", "lithium.jar"), entry("sodium", "sodium.jar")],
        },
        new_lockfile: Lockfile { plugins: vec![entry("vault", "vault.jar")], mods: vec![] },
    };
    let report = context.download_addons(AddonType::Mod, vec![entry("sodium", "sodium.jar")]);
    assert_eq!(report.stale, names(&["lithium.jar"]));
    assert_eq!(report.processed, 1);
    assert_eq!(context.new_lockfile.plugins, vec![entry("vault", "vault.jar")]);
    assert_eq!(context.new_lockfile.mods, vec![entry("sodium", "sodium.jar")]);
}

#[test]
fn download_addons_counts_different_files() {
    let mut context = BuildContext {
        lockfile: Lockfile { plugins: vec![], mods: vec![] },
        new_lockfile: Lockfile { plugins: vec![entry("old", "old.jar")], mods: vec![] },
    };
    let resolved = vec![entry("a", "same.jar"), entry("b", "same.jar"), entry("c", "c.jar")];
    let report = context.download_addons(AddonType::Plugin, resolved);
    assert_eq!(report.processed, 2);
    assert_eq!(report.stale, names(&[]));
    assert_eq!(context.new_lockfile.plugins.len(), 4);
    assert_eq!(context.new_lockfile.plugins[0], entry("old", "old.jar"));
    assert_eq!(context.new_lockfile.plugins[3], entry("c", "c.jar"));
}

#[test]
fn download_addons_with_nothing_resolved_makes_every_old_file_stale() {
    let mut context = BuildContext {
        lockfile: Lockfile { plugins: vec![entry("a", "a.jar"), entry("b", "b.jar")], mods: vec![] },
        new_lockfile: Lockfile { plugins: vec![], mods: vec![] },
    };
    let report = context.download_addons(AddonType::Plugin, vec![]);
    assert_eq!(report, AddonReport { stale: names(&["a.jar", "b.jar"]), processed: 0 });
}

#[test]
fn plural_suffix_for_counts() {
    assert_eq!(plural_suffix(0), "s");
    assert_eq!(plural_suffix(1), "");
    assert_eq!(plural_suffix(2), "s");
}

#[test]
fn trim_line_takes_surrounding_white_space_away() {
    assert_eq!(trim_line("  hello world \t\r\n"), "hello world");
    assert_eq!(trim_line("hello"), "hello");
    assert_eq!(trim_line(""), "");
    assert_eq!(trim_line(" \t "), "");
    assert_eq!(trim_line("\u{a0}\u{3000}x\u{2028}\u{85}"), "x");
    assert_eq!(trim_line("\u{200b}x\u{200b}"), "\u{200b}x\u{200b}");
    assert_eq!(trim_line(" a  b "), "a  b");
}

#[test]
fn terminate_line_appends_a_missing_line_feed() {
    assert_eq!(terminate_line("stop".to_string()), "stop\n");
    assert_eq!(terminate_line("stop\n".to_string()), "stop\n");
    assert_eq!(terminate_line("".to_string()), "\n");
    assert_eq!(terminate_line("a\nb".to_string()), "a\nb\n");
    assert_eq!(terminate_line("été".to_string()), "été\n");
}
