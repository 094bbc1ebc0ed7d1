//! Templates: named lists of packages, found by name or slug, whose package
//! keys must all be in the catalog.

use crate::catalog::{key_of, SoftwareId};
use crate::manager::opt_view;
use vstd::prelude::*;
use vstd::string::*;

verus! {

/// What `str::to_lowercase` makes of a string.
pub uninterp spec fn lowercase_of(s: Seq<char>) -> Seq<char>;

/// Relies on `str::to_lowercase`: the lowercase form of a string depends on
/// its characters alone.
#[verifier::external_body]
fn lowercase(s: &str) -> (r: String)
    ensures
        r@ == lowercase_of(s@),
{
    s.to_lowercase()
}

/// `s` with every space turned into a dash.
pub open spec fn dashed(s: Seq<char>) -> Seq<char>
    decreases s.len(),
{
    if s.len() == 0 {
        Seq::empty()
    } else {
        dashed(s.drop_last()).push(if s.last() == ' ' { '-' } else { s.last() })
    }
}

/// The code of a character with ASCII capitals folded to small letters.
pub open spec fn ascii_folded(c: char) -> u32 {
    let u = c as u32;
    if 65 <= u && u <= 90 {
        (u + 32) as u32
    } else {
        u
    }
}

/// The strings are equal once ASCII capitals are folded to small letters.
pub open spec fn ascii_same(a: Seq<char>, b: Seq<char>) -> bool {
    a.len() == b.len() && forall|i: int| 0 <= i < a.len() ==> ascii_folded(a[i]) == ascii_folded(b[i])
}

fn folded(c: char) -> (r: u32)
    ensures
        r == ascii_folded(c),
{
    let u = c as u32;
    if 65 <= u && u <= 90 {
        u + 32
    } else {
        u
    }
}

/// Whether the strings are equal once ASCII capitals are folded.
pub fn eq_ignore_ascii_case(a: &str, b: &str) -> (r: bool)
    ensures
        r == ascii_same(a@, b@),
{
    let n = a.unicode_len();
    if n != b.unicode_len() {
        return false;
    }
    let mut i: usize = 0;
    while i < n
        invariant
            i <= n,
            n == a@.len(),
            n == b@.len(),
            forall|j: int| 0 <= j < i ==> ascii_folded(a@[j]) == ascii_folded(b@[j]),
        decreases n - i,
    {
        if folded(a.get_char(i)) != folded(b.get_char(i)) {
            return false;
        }
        i += 1;
    }
    true
}

fn dashes(s: &str) -> (r: String)
    ensures
        r@ == dashed(s@),
{
    let n = s.unicode_len();
    let mut out = String::new();
    let mut i: usize = 0;
    while i < n
        invariant
            i <= n,
            n == s@.len(),
            out@ == dashed(s@.subrange(0, i as int)),
        decreases n - i,
    {
        let c = s.get_char(i);
        assert(s@.subrange(0, i + 1).drop_last() =~= s@.subrange(0, i as int));
        if c == ' ' {
            out.append("-");
            proof {
                reveal_strlit("-");
                assert(out@ =~= dashed(s@.subrange(0, i + 1)));
            }
        } else {
            out.append(s.substring_char(i, i + 1));
            assert(out@ =~= dashed(s@.subrange(0, i + 1)));
        }
        i += 1;
    }
    assert(s@.subrange(0, n as int) =~= s@);
    out
}

/// A named list of packages to act on together.
pub struct Template {
    pub name: String,
    pub description: Option<String>,
    pub software: Vec<SoftwareId>,
    pub path: String,
}

/// The slug of a template name: lowercase, with dashes for spaces.
pub open spec fn slug_of(name: Seq<char>) -> Seq<char> {
    dashed(lowercase_of(name))
}

impl Template {
    pub fn slug(&self) -> (r: String)
        ensures
            r@ == slug_of(self.name@),
    {
        let lower = lowercase(self.name.as_str());
        dashes(lower.as_str())
    }
}

/// Why a template could not be had.
pub enum TemplateError {
    /// The file could not be read; the text says why.
    Io { path: String, message: String },
    /// The file is not a valid template; the text says why.
    Parse { path: String, message: String },
    /// The template names a package the catalog does not have.
    UnknownSoftware { key: String, template: String },
    /// No template has that name.
    NotFound(String),
}

impl TemplateError {
    /// The message a user is shown for this error.
    pub fn message(&self) -> (r: String)
        ensures
            r@ == match self {
                TemplateError::Io { path, .. } => "Failed to read template file "@ + path@,
                TemplateError::Parse { path, message } => "Failed to parse "@ + path@ + ": "@
                    + message@,
                TemplateError::UnknownSoftware { key, template } => "Template `"@ + template@
                    + "` references unknown software id `"@ + key@ + "`"@,
                TemplateError::NotFound(name) => "Template `"@ + name@ + "` was not found"@,
            },
    {
        let mut r;
        match self {
            TemplateError::Io { path, .. } => {
                r = String::from_str("Failed to read template file ");
                r.append(path.as_str());
            },
            TemplateError::Parse { path, message } => {
                r = String::from_str("Failed to parse ");
                r.append(path.as_str());
                r.append(": ");
                r.append(message.as_str());
            },
            TemplateError::UnknownSoftware { key, template } => {
                r = String::from_str("Template `");
                r.append(template.as_str());
                r.append("` references unknown software id `");
                r.append(key.as_str());
                r.append("`");
            },
            TemplateError::NotFound(name) => {
                r = String::from_str("Template `");
                r.append(name.as_str());
                r.append("` was not found");
            },
        }
        r
    }
}

/// Some package has this key.
pub open spec fn known_key(k: Seq<char>) -> bool {
    exists|id: SoftwareId| key_of(id) == k
}

/// `key` is the first of `keys` that no package has.
pub open spec fn first_unknown(keys: Seq<String>, key: Seq<char>) -> bool {
    exists|j: int|
        0 <= j < keys.len() && !known_key(keys[j]@) && key == keys[j]@ && (forall|i: int|
            0 <= i < j ==> known_key(#[trigger] keys[i]@))
}

/// Builds a template from what its file holds: the name it gives, or else
/// the file's stem; and its package keys, each of which must be known. The
/// first unknown key is the error.
pub fn template_from_file(
    name: Option<String>,
    stem: String,
    description: Option<String>,
    keys: Vec<String>,
    path: String,
) -> (r: Result<Template, TemplateError>)
    ensures
        (r is Ok) <==> (forall|i: int| 0 <= i < keys@.len() ==> known_key(#[trigger] keys@[i]@)),
        r matches Ok(t) ==> {
            &&& t.name@ == (match name {
                Some(n) => n@,
                None => stem@,
            })
            &&& opt_view(t.description) == opt_view(description)
            &&& t.path@ == path@
            &&& t.software@.len() == keys@.len()
            &&& forall|i: int| 0 <= i < keys@.len() ==> key_of(#[trigger] t.software@[i]) == keys@[i]@
        },
        r matches Err(e) ==> (e matches TemplateError::UnknownSoftware { key, template }
            && first_unknown(keys@, key@) && template@ == (match name {
            Some(n) => n@,
            None => stem@,
        })),
{
    let ghost want: Seq<char> = if name is Some {
        name->Some_0@
    } else {
        stem@
    };
    let tname = match name {
        Some(n) => n,
        None => stem,
    };
    assert(tname@ == want);
    let mut ids: Vec<SoftwareId> = Vec::new();
    let mut i: usize = 0;
    while i < keys.len()
        invariant
            i <= keys@.len(),
            ids@.len() == i,
            forall|j: int| 0 <= j < i ==> key_of(#[trigger] ids@[j]) == keys@[j]@,
            forall|j: int| 0 <= j < i ==> known_key(#[trigger] keys@[j]@),
            tname@ == want,
            want == (match name {
                Some(n) => n@,
                None => stem@,
            }),
        decreases keys@.len() - i,
    {
        match SoftwareId::from_key(keys[i].as_str()) {
            Some(id) => {
                ids.push(id);
            },
            None => {
                let key = keys[i].clone();
                proof {
                    assert(!known_key(keys@[i as int]@));
                    assert(first_unknown(keys@, key@));
                }
                return Err(TemplateError::UnknownSoftware { key, template: tname });
            },
        }
        i += 1;
    }
    Ok(Template { name: tname, description, software: ids, path })
}

/// `t` is the template asked for by `name`: by slug, or by name up to ASCII
/// case.
pub open spec fn answers_to(t: Template, name: Seq<char>) -> bool {
    slug_of(t.name@) == lowercase_of(name) || ascii_same(t.name@, name)
}

/// The position of the first template that answers to `name`.
pub fn find_template(templates: &Vec<Template>, name: &str) -> (r: Option<usize>)
    ensures
        r matches Some(i) ==> i < templates@.len() && answers_to(templates@[i as int], name@)
            && forall|j: int| 0 <= j < i ==> !answers_to(#[trigger] templates@[j], name@),
        r is None ==> forall|j: int| 0 <= j < templates@.len() ==> !answers_to(#[trigger] templates@[j], name@),
{
    let normalized = lowercase(name);
    let mut i: usize = 0;
    while i < templates.len()
        invariant
            i <= templates@.len(),
            normalized@ == lowercase_of(name@),
            forall|j: int| 0 <= j < i ==> !answers_to(#[trigger] templates@[j], name@),
        decreases templates@.len() - i,
    {
        let t = &templates[i];
        let slug = t.slug();
        if crate::text::same_text(slug.as_str(), normalized.as_str()) || eq_ignore_ascii_case(
            t.name.as_str(),
            name,
        ) {
            return Some(i);
        }
        i += 1;
    }
    None
}

} // verus!
