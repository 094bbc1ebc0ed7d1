use maziq::catalog::{
    all_entries, categories, entry, find_by_key, flattened_handles, CommandRecipe, CommandSource,
    SoftwareId, SoftwareKind, VersionProbe, SOFTWARE_COUNT,
};

#[test]
fn every_identifier_has_an_entry_in_order() {
    let all = SoftwareId::all();
    assert_eq!(all.len(), SOFTWARE_COUNT);
    let entries = all_entries();
    assert_eq!(entries.len(), SOFTWARE_COUNT);
    for (i, e) in entries.iter().enumerate() {
        assert_eq!(e.id, all[i]);
        assert_eq!(e.id.index(), i);
        assert_eq!(SoftwareId::from_index(i), e.id);
    }
}

#[test]
fn keys_round_trip_and_are_case_sensitive() {
    for id in SoftwareId::all() {
        assert_eq!(SoftwareId::from_key(id.key()), Some(id));
    }
    assert_eq!(SoftwareId::from_key("rust_stable"), Some(SoftwareId::RustStable));
    assert_eq!(SoftwareId::from_key("Rust_Stable"), None);
    assert_eq!(SoftwareId::from_key(""), None);
    assert_eq!(SoftwareId::from_key("no_such_package"), None);
}

#[test]
fn find_by_key_returns_the_entry() {
    let e = find_by_key("brave").expect("brave is in the catalog");
    assert_eq!(e.id, SoftwareId::Brave);
    assert_eq!(e.display_name, "Brave Browser");
    assert_eq!(e.kind, SoftwareKind::GuiApplication);
    assert_eq!(e.dependencies, vec![SoftwareId::Homebrew]);
    assert!(find_by_key("nothing").is_none());
}

#[test]
fn rust_stable_depends_on_rustup() {
    assert_eq!(SoftwareId::RustStable.dependencies(), vec![SoftwareId::Rustup]);
    assert!(SoftwareId::Rustup.dependencies().is_empty());
    assert_eq!(entry(SoftwareId::RustStable).kind, SoftwareKind::Sdk);
}

#[test]
fn no_package_depends_on_itself() {
    for id in SoftwareId::all() {
        assert!(!id.dependencies().contains(&id));
    }
}

#[test]
fn kind_labels() {
    assert_eq!(SoftwareKind::GuiApplication.label(), "GUI");
    assert_eq!(SoftwareKind::CliTool.label(), "CLI");
    assert_eq!(SoftwareKind::Sdk.label(), "SDK");
}

#[test]
fn probe_descriptions() {
    let p = SoftwareId::Brave.version_probe();
    assert_eq!(p.description(), "mdls -name kMDItemVersion /Applications/Brave\\ Browser.app");
    let p = SoftwareId::RustStable.version_probe();
    assert_eq!(p.description(), "rustup run stable rustc --version");
    assert_eq!(VersionProbe::BrewList { package: "jq" }.description(), "brew list --versions jq");
    assert_eq!(VersionProbe::Manual("look").description(), "Manual check: look");
    let bare = VersionProbe::Command { program: "tool", args: Vec::new() };
    assert_eq!(bare.description(), "tool");
}

#[test]
fn default_labels_follow_the_command() {
    assert_eq!(CommandRecipe::Shell("brew install --cask zed").default_label(), "homebrew cask");
    assert_eq!(CommandRecipe::Shell("brew install jq").default_label(), "homebrew formula");
    assert_eq!(CommandRecipe::Shell("brew upgrade --cask zed").default_label(), "homebrew cask upgrade");
    assert_eq!(CommandRecipe::Shell("brew upgrade jq").default_label(), "homebrew upgrade");
    assert_eq!(CommandRecipe::Shell("npm install -g x").default_label(), "npm global");
    assert_eq!(CommandRecipe::Shell("npm update -g x").default_label(), "npm global update");
    assert_eq!(CommandRecipe::Shell("cargo install just").default_label(), "cargo install");
    assert_eq!(CommandRecipe::Shell("cargo uninstall just").default_label(), "cargo uninstall");
    assert_eq!(CommandRecipe::Shell("curl -fsSL x | sh").default_label(), "curl script");
    assert_eq!(CommandRecipe::Shell("xcode-select --install").default_label(), "xcode-select");
    assert_eq!(CommandRecipe::Shell("rustup update").default_label(), "rustup");
    assert_eq!(CommandRecipe::Shell("go install x").default_label(), "go");
    assert_eq!(CommandRecipe::Shell("flutter upgrade").default_label(), "flutter");
    assert_eq!(CommandRecipe::Shell("echo hi").default_label(), "shell");
    assert_eq!(CommandRecipe::Manual("do it").default_label(), "manual");
    assert_eq!(CommandRecipe::Manual("do it").description(), "do it");
}

#[test]
fn sources_put_the_primary_recipe_first() {
    let e = entry(SoftwareId::Cursor);
    let install = e.install_sources();
    assert_eq!(install.len(), 2);
    assert_eq!(install[0].label, "homebrew cask");
    assert_eq!(install[0].recipe.description(), "brew install --cask cursor");
    assert_eq!(install[1].label, "manual");
    assert!(matches!(install[1].recipe, CommandRecipe::Manual(_)));
    assert_eq!(e.update_sources().len(), 1);
    assert_eq!(e.uninstall_sources().len(), 1);
    let s = CommandSource::shell("mine", "echo");
    assert_eq!(s.label, "mine");
    let m = CommandSource::manual("by hand", "note");
    assert_eq!(m.recipe.description(), "note");
}

#[test]
fn handles_list_every_category_in_order() {
    let cats = categories();
    let handles = flattened_handles();
    let total: usize = cats.iter().map(|c| c.entries.len()).sum();
    assert_eq!(handles.len(), total);
    assert_eq!(handles[0].category, cats[0].name);
    assert_eq!(handles[0].id, cats[0].entries[0]);
    let last = cats.last().unwrap();
    assert_eq!(handles.last().unwrap().id, *last.entries.last().unwrap());
}
