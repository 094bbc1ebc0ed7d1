//! Catalog types and lookups over the package table.

pub use crate::packages::{
    all_ids, categories, categories_spec, category_name_of, deps_of, extra_install_of, id_at,
    id_index, install_recipe_of, key_of, kind_of, lemma_at_round_trip, lemma_index_round_trip,
    name_of, probe_of, summary_of, uninstall_recipe_of, update_recipe_of, SoftwareId, SOFTWARE_COUNT,
};
use crate::text::{contains, contains_text, has_prefix, starts_with, same_text};
use vstd::prelude::*;
use vstd::string::*;

verus! {

/// What sort of software a package is.
#[derive(Clone, Copy, Debug, PartialEq, Eq, Structural)]
pub enum SoftwareKind {
    GuiApplication,
    CliTool,
    Sdk,
}

/// The short label shown for a kind.
pub open spec fn kind_label(k: SoftwareKind) -> Seq<char> {
    match k {
        SoftwareKind::GuiApplication => "GUI"@,
        SoftwareKind::CliTool => "CLI"@,
        SoftwareKind::Sdk => "SDK"@,
    }
}

impl SoftwareKind {
    pub fn label(&self) -> (r: &'static str)
        ensures
            r@ == kind_label(*self),
    {
        match self {
            SoftwareKind::GuiApplication => "GUI",
            SoftwareKind::CliTool => "CLI",
            SoftwareKind::Sdk => "SDK",
        }
    }
}

/// How the installed version of a package is detected.
#[derive(Clone, Debug)]
pub enum VersionProbe {
    /// Query an application bundle's metadata by filesystem path.
    Mdls { path: &'static str },
    /// Run a program with fixed arguments and read its standard output.
    Command { program: &'static str, args: Vec<&'static str> },
    /// Ask the package manager's listing for a package.
    BrewList { package: &'static str },
    /// The check has to be made by hand.
    Manual(&'static str),
}

/// A version probe with its strings as character sequences.
pub enum ProbeView {
    Mdls { path: Seq<char> },
    Command { program: Seq<char>, args: Seq<&'static str> },
    BrewList { package: Seq<char> },
    Manual(Seq<char>),
}

impl View for VersionProbe {
    type V = ProbeView;

    open spec fn view(&self) -> ProbeView {
        match self {
            VersionProbe::Mdls { path } => ProbeView::Mdls { path: path@ },
            VersionProbe::Command { program, args } => ProbeView::Command {
                program: program@,
                args: args@,
            },
            VersionProbe::BrewList { package } => ProbeView::BrewList { package: package@ },
            VersionProbe::Manual(n) => ProbeView::Manual(n@),
        }
    }
}

/// `s` with every space preceded by a backslash.
pub open spec fn escape_spaces(s: Seq<char>) -> Seq<char>
    decreases s.len(),
{
    if s.len() == 0 {
        Seq::empty()
    } else if s.last() == ' ' {
        escape_spaces(s.drop_last()) + seq!['\\', ' ']
    } else {
        escape_spaces(s.drop_last()).push(s.last())
    }
}

/// The words joined, each preceded by one space.
pub open spec fn spaced_words(args: Seq<&'static str>) -> Seq<char>
    decreases args.len(),
{
    if args.len() == 0 {
        Seq::empty()
    } else {
        spaced_words(args.drop_last()) + seq![' '] + args.last()@
    }
}

/// The command line a probe stands for, as shown to a user.
pub open spec fn probe_description(p: VersionProbe) -> Seq<char> {
    match p {
        VersionProbe::Mdls { path } => "mdls -name kMDItemVersion "@ + escape_spaces(path@),
        VersionProbe::Command { program, args } => program@ + spaced_words(args@),
        VersionProbe::BrewList { package } => "brew list --versions "@ + package@,
        VersionProbe::Manual(note) => "Manual check: "@ + note@,
    }
}

fn escaped(s: &str) -> (r: String)
    ensures
        r@ == escape_spaces(s@),
{
    let n = s.unicode_len();
    let mut out = String::new();
    let mut i: usize = 0;
    while i < n
        invariant
            i <= n,
            n == s@.len(),
            out@ == escape_spaces(s@.subrange(0, i as int)),
        decreases n - i,
    {
        let c = s.get_char(i);
        assert(s@.subrange(0, i + 1).drop_last() =~= s@.subrange(0, i as int));
        if c == ' ' {
            out.append("\\ ");
            proof {
                reveal_strlit("\\ ");
                assert(out@ =~= escape_spaces(s@.subrange(0, i + 1)));
            }
        } else {
            out.append(s.substring_char(i, i + 1));
            assert(out@ =~= escape_spaces(s@.subrange(0, i + 1)));
        }
        i += 1;
    }
    assert(s@.subrange(0, n as int) =~= s@);
    out
}

fn spaced(args: &Vec<&'static str>) -> (r: String)
    ensures
        r@ == spaced_words(args@),
{
    let mut out = String::new();
    let mut i: usize = 0;
    while i < args.len()
        invariant
            i <= args@.len(),
            out@ == spaced_words(args@.subrange(0, i as int)),
        decreases args@.len() - i,
    {
        assert(args@.subrange(0, i + 1).drop_last() =~= args@.subrange(0, i as int));
        out.append(" ");
        out.append(args[i]);
        proof {
            reveal_strlit(" ");
            assert(out@ =~= spaced_words(args@.subrange(0, i + 1)));
        }
        i += 1;
    }
    assert(args@.subrange(0, args@.len() as int) =~= args@);
    out
}

impl VersionProbe {
    /// The command line this probe stands for, as shown to a user.
    pub fn description(&self) -> (r: String)
        ensures
            r@ == probe_description(*self),
    {
        match self {
            VersionProbe::Mdls { path } => {
                let mut r = String::from_str("mdls -name kMDItemVersion ");
                let tail = escaped(path);
                r.append(tail.as_str());
                r
            },
            VersionProbe::Command { program, args } => {
                let mut r = String::from_str(program);
                let tail = spaced(args);
                r.append(tail.as_str());
                r
            },
            VersionProbe::BrewList { package } => {
                let mut r = String::from_str("brew list --versions ");
                r.append(package);
                r
            },
            VersionProbe::Manual(note) => {
                let mut r = String::from_str("Manual check: ");
                r.append(note);
                r
            },
        }
    }
}

/// One way to carry out an action: a shell command, or a note for a person.
#[derive(Clone, Copy, Debug)]
pub enum CommandRecipe {
    Shell(&'static str),
    Manual(&'static str),
}

/// The text of a recipe: its command or its note.
pub open spec fn recipe_text(r: CommandRecipe) -> Seq<char> {
    match r {
        CommandRecipe::Shell(c) => c@,
        CommandRecipe::Manual(n) => n@,
    }
}

/// The label a shell command gets from the tool it runs.
pub open spec fn inferred_label(cmd: Seq<char>) -> Seq<char> {
    if contains_text(cmd, "brew install --cask"@) {
        "homebrew cask"@
    } else if has_prefix(cmd, "brew install"@) {
        "homebrew formula"@
    } else if contains_text(cmd, "brew upgrade --cask"@) {
        "homebrew cask upgrade"@
    } else if has_prefix(cmd, "brew upgrade"@) {
        "homebrew upgrade"@
    } else if has_prefix(cmd, "npm install -g"@) {
        "npm global"@
    } else if has_prefix(cmd, "npm update -g"@) {
        "npm global update"@
    } else if has_prefix(cmd, "cargo install"@) {
        "cargo install"@
    } else if has_prefix(cmd, "cargo uninstall"@) {
        "cargo uninstall"@
    } else if has_prefix(cmd, "curl --proto"@) || has_prefix(cmd, "curl -fsSL"@) {
        "curl script"@
    } else if has_prefix(cmd, "xcode-select"@) {
        "xcode-select"@
    } else if has_prefix(cmd, "rustup"@) {
        "rustup"@
    } else if has_prefix(cmd, "go "@) {
        "go"@
    } else if has_prefix(cmd, "flutter"@) {
        "flutter"@
    } else {
        "shell"@
    }
}

/// The label a recipe gets when the catalog names none.
pub open spec fn recipe_label(r: CommandRecipe) -> Seq<char> {
    match r {
        CommandRecipe::Shell(c) => inferred_label(c@),
        CommandRecipe::Manual(_) => "manual"@,
    }
}

fn infer_label(cmd: &str) -> (r: &'static str)
    ensures
        r@ == inferred_label(cmd@),
{
    if contains(cmd, "brew install --cask") {
        "homebrew cask"
    } else if starts_with(cmd, "brew install") {
        "homebrew formula"
    } else if contains(cmd, "brew upgrade --cask") {
        "homebrew cask upgrade"
    } else if starts_with(cmd, "brew upgrade") {
        "homebrew upgrade"
    } else if starts_with(cmd, "npm install -g") {
        "npm global"
    } else if starts_with(cmd, "npm update -g") {
        "npm global update"
    } else if starts_with(cmd, "cargo install") {
        "cargo install"
    } else if starts_with(cmd, "cargo uninstall") {
        "cargo uninstall"
    } else if starts_with(cmd, "curl --proto") || starts_with(cmd, "curl -fsSL") {
        "curl script"
    } else if starts_with(cmd, "xcode-select") {
        "xcode-select"
    } else if starts_with(cmd, "rustup") {
        "rustup"
    } else if starts_with(cmd, "go ") {
        "go"
    } else if starts_with(cmd, "flutter") {
        "flutter"
    } else {
        "shell"
    }
}

impl CommandRecipe {
    /// The command or the note.
    pub fn description(&self) -> (r: &'static str)
        ensures
            r@ == recipe_text(*self),
    {
        match self {
            CommandRecipe::Shell(cmd) => cmd,
            CommandRecipe::Manual(note) => note,
        }
    }

    /// The label used when the catalog names none.
    pub fn default_label(&self) -> (r: &'static str)
        ensures
            r@ == recipe_label(*self),
    {
        match self {
            CommandRecipe::Shell(cmd) => infer_label(cmd),
            CommandRecipe::Manual(_) => "manual",
        }
    }
}

/// A labelled recipe: one of the ordered ways to carry out an action.
#[derive(Clone, Copy, Debug)]
pub struct CommandSource {
    pub label: &'static str,
    pub recipe: CommandRecipe,
}

/// `s` is the source a catalog recipe becomes, labelled by default.
pub open spec fn sourced_from(s: CommandSource, r: CommandRecipe) -> bool {
    s.recipe == r && s.label@ == recipe_label(r)
}

/// `v` is the primary recipe followed by the extras, each labelled by default.
pub open spec fn sources_built(
    v: Seq<CommandSource>,
    primary: CommandRecipe,
    extras: Seq<CommandRecipe>,
) -> bool {
    &&& v.len() == extras.len() + 1
    &&& sourced_from(v[0], primary)
    &&& forall|i: int| 0 <= i < extras.len() ==> sourced_from(#[trigger] v[i + 1], extras[i])
}

impl CommandSource {
    pub fn from_recipe(recipe: CommandRecipe) -> (r: Self)
        ensures
            sourced_from(r, recipe),
    {
        CommandSource { label: recipe.default_label(), recipe }
    }

    pub fn shell(label: &'static str, command: &'static str) -> (r: Self)
        ensures
            r.label == label,
            r.recipe == CommandRecipe::Shell(command),
    {
        CommandSource { label, recipe: CommandRecipe::Shell(command) }
    }

    pub fn manual(label: &'static str, note: &'static str) -> (r: Self)
        ensures
            r.label == label,
            r.recipe == CommandRecipe::Manual(note),
    {
        CommandSource { label, recipe: CommandRecipe::Manual(note) }
    }
}

fn build_sources(primary: CommandRecipe, extras: Vec<CommandRecipe>) -> (r: Vec<CommandSource>)
    ensures
        sources_built(r@, primary, extras@),
{
    let mut sources: Vec<CommandSource> = Vec::new();
    sources.push(CommandSource::from_recipe(primary));
    let mut i: usize = 0;
    while i < extras.len()
        invariant
            i <= extras@.len(),
            sources@.len() == i + 1,
            sourced_from(sources@[0], primary),
            forall|j: int| 0 <= j < i ==> sourced_from(#[trigger] sources@[j + 1], extras@[j]),
        decreases extras@.len() - i,
    {
        sources.push(CommandSource::from_recipe(extras[i]));
        i += 1;
    }
    sources
}

/// The catalog's record of one package.
#[derive(Clone, Debug)]
pub struct SoftwareEntry {
    pub id: SoftwareId,
    pub display_name: &'static str,
    pub category: &'static str,
    pub summary: &'static str,
    pub kind: SoftwareKind,
    pub dependencies: Vec<SoftwareId>,
    pub version_probe: VersionProbe,
    pub install: CommandRecipe,
    pub update: CommandRecipe,
    pub uninstall: CommandRecipe,
}

impl SoftwareEntry {
    /// The entry holds what the package table says of `id`.
    pub open spec fn describes(&self, id: SoftwareId) -> bool {
        &&& self.id == id
        &&& self.display_name@ == name_of(id)
        &&& self.category@ == category_name_of(id)
        &&& self.summary@ == summary_of(id)
        &&& self.kind == kind_of(id)
        &&& self.dependencies@ == deps_of(id)
        &&& self.install == install_recipe_of(id)
        &&& self.update == update_recipe_of(id)
        &&& self.uninstall == uninstall_recipe_of(id)
        &&& self.version_probe@ == probe_of(id)
    }

    pub fn from_id(id: SoftwareId) -> (r: Self)
        ensures
            r.describes(id),
    {
        SoftwareEntry {
            id,
            display_name: id.name(),
            category: id.category_name(),
            summary: id.summary(),
            kind: id.kind(),
            dependencies: id.dependencies(),
            version_probe: id.version_probe(),
            install: id.install_recipe(),
            update: id.update_recipe(),
            uninstall: id.uninstall_recipe(),
        }
    }

    /// The install sources: the primary recipe, then the fallbacks.
    pub fn install_sources(&self) -> (r: Vec<CommandSource>)
        ensures
            sources_built(r@, self.install, extra_install_of(self.id)),
    {
        build_sources(self.install, self.id.extra_install_sources())
    }

    /// The update sources: the primary recipe alone.
    pub fn update_sources(&self) -> (r: Vec<CommandSource>)
        ensures
            sources_built(r@, self.update, Seq::empty()),
    {
        let r = build_sources(self.update, self.id.extra_update_sources());
        proof {
            assert(r@.len() == 1);
        }
        r
    }

    /// The uninstall sources: the primary recipe alone.
    pub fn uninstall_sources(&self) -> (r: Vec<CommandSource>)
        ensures
            sources_built(r@, self.uninstall, Seq::empty()),
    {
        let r = build_sources(self.uninstall, self.id.extra_uninstall_sources());
        proof {
            assert(r@.len() == 1);
        }
        r
    }
}

impl SoftwareId {
    /// The identifier whose key is exactly `key`, if any.
    pub fn from_key(key: &str) -> (r: Option<SoftwareId>)
        ensures
            r matches Some(id) ==> key_of(id) == key@,
            r is None <==> forall|id: SoftwareId| key_of(id) != key@,
    {
        let all = SoftwareId::all();
        let mut i: usize = 0;
        while i < all.len()
            invariant
                all@ == all_ids(),
                i <= all@.len(),
                forall|j: int| 0 <= j < i ==> key_of(#[trigger] id_at(j)) != key@,
            decreases all@.len() - i,
        {
            let id = all[i];
            if same_text(id.key(), key) {
                return Some(id);
            }
            i += 1;
        }
        assert forall|id: SoftwareId| key_of(id) != key@ by {
            lemma_index_round_trip(id);
        }
        None
    }
}

/// The entry of each package, in declaration order.
pub fn all_entries() -> (r: Vec<SoftwareEntry>)
    ensures
        r@.len() == SOFTWARE_COUNT,
        forall|i: int| 0 <= i < r@.len() ==> (#[trigger] r@[i]).describes(id_at(i)),
{
    let all = SoftwareId::all();
    let mut r: Vec<SoftwareEntry> = Vec::new();
    let mut i: usize = 0;
    while i < all.len()
        invariant
            all@ == all_ids(),
            i <= all@.len(),
            r@.len() == i,
            forall|j: int| 0 <= j < i ==> (#[trigger] r@[j]).describes(id_at(j)),
        decreases all@.len() - i,
    {
        r.push(SoftwareEntry::from_id(all[i]));
        i += 1;
    }
    r
}

/// The entry whose key is exactly `key`, if any.
pub fn find_by_key(key: &str) -> (r: Option<SoftwareEntry>)
    ensures
        r matches Some(e) ==> key_of(e.id) == key@ && e.describes(e.id),
        r is None <==> forall|id: SoftwareId| key_of(id) != key@,
{
    match SoftwareId::from_key(key) {
        Some(id) => Some(SoftwareEntry::from_id(id)),
        None => None,
    }
}

/// The entry of a package.
pub fn entry(id: SoftwareId) -> (r: SoftwareEntry)
    ensures
        r.describes(id),
{
    SoftwareEntry::from_id(id)
}

/// A named group of packages, as the menu lists them.
pub struct SoftwareCategory {
    pub name: &'static str,
    pub entries: Vec<SoftwareId>,
}

/// One package as listed under its category.
#[derive(Clone, Copy, Debug)]
pub struct SoftwareHandle {
    pub category: &'static str,
    pub id: SoftwareId,
}

/// Each category's packages paired with the category name, all in order.
pub open spec fn flatten_categories(cats: Seq<(Seq<char>, Seq<SoftwareId>)>) -> Seq<
    (Seq<char>, SoftwareId),
>
    decreases cats.len(),
{
    if cats.len() == 0 {
        Seq::empty()
    } else {
        flatten_categories(cats.drop_last()) + paired(cats.last().0, cats.last().1)
    }
}

/// Each identifier paired with one category name.
pub open spec fn paired(name: Seq<char>, ids: Seq<SoftwareId>) -> Seq<(Seq<char>, SoftwareId)> {
    ids.map_values(|id: SoftwareId| (name, id))
}

/// The view of a handle as a pair of category name and identifier.
pub open spec fn handle_view(h: SoftwareHandle) -> (Seq<char>, SoftwareId) {
    (h.category@, h.id)
}

/// The views of a sequence of handles.
pub open spec fn handle_views(s: Seq<SoftwareHandle>) -> Seq<(Seq<char>, SoftwareId)> {
    s.map_values(|h: SoftwareHandle| handle_view(h))
}

/// Every package of the menu with its category, in display order.
pub fn flattened_handles() -> (r: Vec<SoftwareHandle>)
    ensures
        handle_views(r@) == flatten_categories(categories_spec()),
{
    let cats = categories();
    let ghost spec_cats = categories_spec();
    let mut out: Vec<SoftwareHandle> = Vec::new();
    let mut i: usize = 0;
    while i < cats.len()
        invariant
            i <= cats@.len(),
            cats@.len() == spec_cats.len(),
            spec_cats == categories_spec(),
            forall|k: int|
                0 <= k < cats@.len() ==> (#[trigger] cats@[k]).name@ == spec_cats[k].0
                    && cats@[k].entries@ == spec_cats[k].1,
            handle_views(out@) == flatten_categories(
                spec_cats.subrange(0, i as int),
            ),
        decreases cats@.len() - i,
    {
        let cat = &cats[i];
        let ghost before = handle_views(out@);
        assert(paired(cat.name@, cat.entries@.subrange(0, 0)) =~= Seq::empty());
        assert(before + Seq::<(Seq<char>, SoftwareId)>::empty() =~= before);
        let mut j: usize = 0;
        while j < cat.entries.len()
            invariant
                j <= cat.entries@.len(),
                handle_views(out@) == before + paired(cat.name@, cat.entries@.subrange(0, j as int)),
            decreases cat.entries@.len() - j,
        {
            let ghost prev = out@;
            out.push(SoftwareHandle { category: cat.name, id: cat.entries[j] });
            proof {
                let lhs = handle_views(out@);
                let rhs = before + paired(cat.name@, cat.entries@.subrange(0, j + 1));
                assert(handle_views(prev) == before + paired(cat.name@, cat.entries@.subrange(0, j as int)));
                let mid = before + paired(cat.name@, cat.entries@.subrange(0, j as int));
                assert(lhs.len() == prev.len() + 1);
                assert(mid.len() == prev.len());
                assert(rhs.len() == lhs.len());
                assert forall|k: int| 0 <= k < lhs.len() implies lhs[k] == rhs[k] by {
                    if k < prev.len() {
                        assert(lhs[k] == handle_views(prev)[k]);
                        if k >= before.len() {
                            assert(rhs[k] == paired(cat.name@, cat.entries@.subrange(0, j + 1))[k - before.len()]);
                            assert(mid[k] == paired(cat.name@, cat.entries@.subrange(0, j as int))[k - before.len()]);
                        }
                    } else {
                        assert(rhs[k] == paired(cat.name@, cat.entries@.subrange(0, j + 1))[j as int]);
                    }
                }
                assert(lhs =~= rhs);
            }
            j += 1;
        }
        assert(cat.entries@.subrange(0, j as int) =~= cat.entries@);
        assert(spec_cats.subrange(0, i + 1).drop_last() =~= spec_cats.subrange(0, i as int));
        i += 1;
    }
    assert(spec_cats.subrange(0, i as int) =~= spec_cats);
    out
}

} // verus!
