//! Paths of the host.
//!
//! The host is a Unix or a Windows. What is said here of a path holds on both.

use crate::text;
use vstd::prelude::*;
use vstd::string::*;

verus! {

/// A path of the host: the text of the path, and its components, by which two paths are the same.
#[derive(Debug)]
pub struct WorkDir {
    display: String,
    components: Vec<Vec<u8>>,
}

/// A working directory as mathematics.
pub struct WorkDirView {
    pub display: Seq<char>,
    pub components: Seq<Seq<u8>>,
}

/// The names of path components, as bytes.
pub open spec fn component_bytes(components: Seq<Vec<u8>>) -> Seq<Seq<u8>> {
    components.map_values(|c: Vec<u8>| c@)
}

impl View for WorkDir {
    type V = WorkDirView;

    closed spec fn view(&self) -> WorkDirView {
        WorkDirView { display: self.display@, components: component_bytes(self.components@) }
    }
}

impl WorkDir {
    /// The components are those of the path.
    #[verifier::type_invariant]
    spec fn agrees(self) -> bool {
        components_of(self.display@, component_bytes(self.components@))
    }
}

impl Clone for WorkDir {
    fn clone(&self) -> (copy: Self)
        ensures
            copy@ == self@,
    {
        self.duplicate()
    }
}

impl PartialEq for WorkDir {
    /// Two paths are equal where their components are.
    fn eq(&self, other: &Self) -> (equal: bool) {
        self.same_as(other)
    }
}

impl vstd::std_specs::cmp::PartialEqSpecImpl for WorkDir {
    open spec fn obeys_eq_spec() -> bool {
        true
    }

    open spec fn eq_spec(&self, other: &Self) -> bool {
        self@.components == other@.components
    }
}

impl Eq for WorkDir {

}

/// Whether `s` is a single name on every host: it holds no character that separates names or ends
/// the prefix of a path anywhere.
pub open spec fn is_plain_name(s: Seq<char>) -> bool {
    s.len() > 0 && forall|i: int|
        0 <= i < s.len() ==> #[trigger] s[i] != '/' && s[i] != '\\' && s[i] != ':'
}

/// Whether `s` is a relative path on every host: it begins with no separator and has no prefix.
pub open spec fn is_relative(s: Seq<char>) -> bool {
    &&& s.len() > 0 ==> s[0] != '/' && s[0] != '\\'
    &&& forall|i: int| 0 <= i < s.len() ==> #[trigger] s[i] != ':'
}

/// Whether `s` has the prefix of a verbatim path, which Windows takes literally.
pub open spec fn is_verbatim(s: Seq<char>) -> bool {
    s.len() >= 4 && s[0] == '\\' && s[1] == '\\' && s[2] == '?' && s[3] == '\\'
}

/// Whether `text` is `base` and then `path`, with at most one character between them.
pub open spec fn is_below(text: Seq<char>, base: Seq<char>, path: Seq<char>) -> bool {
    exists|between: Seq<char>| between.len() <= 1 && text == #[trigger] (base + between) + path
}

/// Whether `text` ends with `path`.
pub open spec fn ends_in(text: Seq<char>, path: Seq<char>) -> bool {
    text.len() >= path.len() && text.skip(text.len() - path.len()) == path
}

/// Whether `s` begins with two separators, as the paths of servers and devices do on Windows.
pub open spec fn begins_with_two_separators(s: Seq<char>) -> bool {
    s.len() >= 2 && (s[0] == '/' || s[0] == '\\') && (s[1] == '/' || s[1] == '\\')
}

/// Whether `s` can begin with a drive.
pub open spec fn may_name_a_drive(s: Seq<char>) -> bool {
    s.len() >= 2 && s[1] == ':'
}

/// What is known on every host of the path `text` that `path` makes with `base`. Unless the base is
/// verbatim, the text of `path` is kept as it is written, and a relative path follows the base. A
/// path from the root replaces a base that has no drive, server or device.
pub open spec fn read_from(text: Seq<char>, base: Seq<char>, path: Seq<char>) -> bool {
    &&& !is_verbatim(base) ==> ends_in(text, path)
    &&& !is_verbatim(base) && is_relative(path) ==> is_below(text, base, path)
    &&& path.len() > 0 && path[0] == '/' && !begins_with_two_separators(base)
        && !may_name_a_drive(base) ==> text == path
}

/// The path `base` with a slash and `name` behind it.
pub open spec fn slashed(base: Seq<char>, name: Seq<char>) -> Seq<char> {
    base + seq!['/'] + name
}

/// Whether `s` is read alike on every host: only slashes separate its names, and it has no drive,
/// server or device.
pub open spec fn is_portable(s: Seq<char>) -> bool {
    &&& forall|i: int| 0 <= i < s.len() ==> #[trigger] s[i] != '\\' && s[i] != ':'
    &&& !begins_with_two_separators(s)
}

/// What stands before the first slash of `s`.
pub open spec fn leading_name(s: Seq<char>) -> Seq<char> {
    s.take(text::length_before(s, |c: char| c == '/') as int)
}

/// The names between the slashes of `s`; empty names and `.` do not count.
pub open spec fn names_between_slashes(s: Seq<char>) -> Seq<Seq<u8>>
    decreases s.len(),
{
    if s.len() == 0 {
        Seq::empty()
    } else {
        let n = text::length_before(s, |c: char| c == '/');
        let name = leading_name(s);
        let rest = if n < s.len() {
            names_between_slashes(s.skip((n + 1) as int))
        } else {
            Seq::empty()
        };
        if name.len() == 0 || name == seq!['.'] {
            rest
        } else {
            seq![vstd::utf8::encode_utf8(name)] + rest
        }
    }
}

/// The components of a portable path: the root or a leading `.`, if it has one, and its names.
pub open spec fn portable_components(s: Seq<char>) -> Seq<Seq<u8>> {
    if s.len() > 0 && s[0] == '/' {
        seq![vstd::utf8::encode_utf8(seq!['/'])] + names_between_slashes(s)
    } else if leading_name(s) == seq!['.'] {
        seq![vstd::utf8::encode_utf8(seq!['.'])] + names_between_slashes(s)
    } else {
        names_between_slashes(s)
    }
}

/// What is known on every host of the components of the path `text`. A single name is the only
/// one. A path that is not empty has one. A name behind the last slash is the last one, unless it
/// is `.` or the path can be that of a server or a device. The components of a portable path are
/// its root and its names.
pub open spec fn components_of(text: Seq<char>, components: Seq<Seq<u8>>) -> bool {
    &&& is_plain_name(text) ==> components == seq![vstd::utf8::encode_utf8(text)]
    &&& text.len() > 0 ==> components.len() > 0
    &&& forall|base: Seq<char>, name: Seq<char>|
        text == #[trigger] slashed(base, name) && is_plain_name(name) && name != seq!['.']
            && !begins_with_two_separators(text) ==> components.len() > 0 && components.last()
            == vstd::utf8::encode_utf8(name)
    &&& is_portable(text) ==> components == portable_components(text)
}

/// `std::path::Path::components`, each component as its encoded bytes: the root as a slash, and a
/// Windows prefix by its kind, which knows a drive in either case of its letter. Repeated and
/// trailing separators and every `.` but a leading one yield no component. What else of a path is
/// a prefix or a separator is a matter of the host's path syntax and left unsaid.
#[verifier::external_body]
fn path_components(text: &str) -> (components: Vec<Vec<u8>>)
    ensures
        components_of(text@, component_bytes(components@)),
{
    std::path::Path::new(text).components().map(
        |c| match c {
            std::path::Component::Prefix(prefix) => format!("\\{:?}", prefix.kind()).into_bytes(),
            std::path::Component::RootDir => b"/".to_vec(),
            other => other.as_os_str().as_encoded_bytes().to_vec(),
        },
    ).collect()
}

/// `std::path::Path::is_absolute`: a path without a colon that begins with no separator is
/// absolute on no host. Which other paths are absolute is a matter of the host's path syntax and
/// left unsaid.
#[verifier::external_body]
fn is_absolute_path(path: &str) -> (absolute: bool)
    ensures
        is_relative(path@) ==> !absolute,
{
    std::path::Path::new(path).is_absolute()
}

/// `std::path::Path::join`: `path` is adjoined to `base`, or replaces it in whole or in part where
/// it is not relative; a relative path is put behind the base, with a separator where one is
/// needed. A path from the root replaces all of a base but its drive, server or device. Only a
/// verbatim base makes the path be normalized. The separator, and which other paths replace how
/// much of the base, is a matter of the host's path syntax and left unsaid.
#[verifier::external_body]
fn join_paths(base: &str, path: &str) -> (text: String)
    ensures
        read_from(text@, base@, path@),
{
    std::path::Path::new(base).join(path).display().to_string()
}

/// A copy of some bytes.
fn copy_bytes(bytes: &Vec<u8>) -> (copy: Vec<u8>)
    ensures
        copy@ == bytes@,
{
    let mut copy: Vec<u8> = Vec::new();
    let mut i: usize = 0;
    while i < bytes.len()
        invariant
            i <= bytes@.len(),
            copy@ == bytes@.take(i as int),
        decreases bytes@.len() - i,
    {
        copy.push(bytes[i]);
        i = i + 1;
        assert(bytes@.take(i as int) =~= bytes@.take(i - 1).push(bytes@[i - 1]));
    }
    assert(bytes@.take(i as int) =~= bytes@);
    copy
}

/// Whether two byte strings are equal.
pub fn same_bytes(a: &Vec<u8>, b: &Vec<u8>) -> (same: bool)
    ensures
        same == (a@ == b@),
{
    if a.len() != b.len() {
        return false;
    }
    let mut i: usize = 0;
    while i < a.len()
        invariant
            a@.len() == b@.len(),
            i <= a@.len(),
            forall|j: int| 0 <= j < i ==> a@[j] == b@[j],
        decreases a@.len() - i,
    {
        if a[i] != b[i] {
            return false;
        }
        i = i + 1;
    }
    assert(a@ =~= b@);
    true
}

impl WorkDir {
    /// The directory at the path `text`, with the components of this path.
    pub fn new(text: String) -> (dir: WorkDir)
        ensures
            dir@.display == text@,
            components_of(dir@.display, dir@.components),
    {
        let components = path_components(text.as_str());
        WorkDir { display: text, components }
    }

    /// The text of the path.
    pub fn display(&self) -> (text: &str)
        ensures
            text@ == self@.display,
    {
        self.display.as_str()
    }

    /// The components of the path.
    pub fn components(&self) -> (components: &Vec<Vec<u8>>)
        ensures
            component_bytes(components@) == self@.components,
            components_of(self@.display, self@.components),
    {
        proof {
            use_type_invariant(self);
        }
        &self.components
    }

    /// The directory that `path` names, by whether the host takes it for absolute: an absolute
    /// path stands for itself, any other is the path `joined` that it makes with the directory
    /// from which it is read.
    pub fn resolved(path: &str, is_absolute: bool, joined: String) -> (dir: WorkDir)
        ensures
            dir@.display == if is_absolute {
                path@
            } else {
                joined@
            },
            components_of(dir@.display, dir@.components),
    {
        if is_absolute {
            WorkDir::new(path.to_owned())
        } else {
            WorkDir::new(joined)
        }
    }

    /// The directory that `path` names, read from this directory: what [`WorkDir::resolved`] makes
    /// of the host's answers. The separator between the two, and what is left of this directory
    /// where that differs between hosts, are left unsaid.
    pub fn join(&self, path: &str) -> (dir: WorkDir)
        ensures
            read_from(dir@.display, self@.display, path@),
            components_of(dir@.display, dir@.components),
    {
        let joined = join_paths(self.display.as_str(), path);
        let absolute = is_absolute_path(path);
        assert(path@.skip(0) =~= path@);
        WorkDir::resolved(path, absolute, joined)
    }

    /// A copy of the directory.
    pub fn duplicate(&self) -> (copy: WorkDir)
        ensures
            copy@ == self@,
    {
        let mut components: Vec<Vec<u8>> = Vec::new();
        let mut i: usize = 0;
        while i < self.components.len()
            invariant
                i <= self.components@.len(),
                component_bytes(components@) == component_bytes(self.components@).take(i as int),
            decreases self.components@.len() - i,
        {
            let ghost before = components@;
            components.push(copy_bytes(&self.components[i]));
            i = i + 1;
            assert(component_bytes(components@) =~= component_bytes(before).push(
                component_bytes(self.components@)[i - 1],
            ));
            assert(component_bytes(self.components@).take(i as int) =~= component_bytes(
                self.components@,
            ).take(i - 1).push(component_bytes(self.components@)[i - 1]));
        }
        assert(component_bytes(self.components@).take(i as int) =~= component_bytes(
            self.components@,
        ));
        proof {
            use_type_invariant(self);
        }
        WorkDir { display: self.display.clone(), components }
    }

    /// Whether two paths lead through the same components.
    pub fn same_as(&self, other: &WorkDir) -> (same: bool)
        ensures
            same == (self@.components == other@.components),
    {
        if self.components.len() != other.components.len() {
            assert(self@.components.len() != other@.components.len());
            return false;
        }
        let mut i: usize = 0;
        while i < self.components.len()
            invariant
                self.components@.len() == other.components@.len(),
                i <= self.components@.len(),
                forall|j: int|
                    0 <= j < i ==> self@.components[j] == other@.components[j],
            decreases self.components@.len() - i,
        {
            if !same_bytes(&self.components[i], &other.components[i]) {
                assert(self@.components[i as int] != other@.components[i as int]);
                return false;
            }
            i = i + 1;
        }
        assert(self@.components =~= other@.components);
        true
    }
}

/// Copies of all directories of a list.
pub fn duplicate_all(dirs: &Vec<WorkDir>) -> (copies: Vec<WorkDir>)
    ensures
        dir_views(copies@) == dir_views(dirs@),
{
    let mut copies: Vec<WorkDir> = Vec::new();
    let mut i: usize = 0;
    while i < dirs.len()
        invariant
            i <= dirs@.len(),
            dir_views(copies@) == dir_views(dirs@).take(i as int),
        decreases dirs@.len() - i,
    {
        let ghost before = copies@;
        copies.push(dirs[i].duplicate());
        i = i + 1;
        assert(dir_views(copies@) =~= dir_views(before).push(dir_views(dirs@)[i - 1]));
        assert(dir_views(dirs@).take(i as int) =~= dir_views(dirs@).take(i - 1).push(
            dir_views(dirs@)[i - 1],
        ));
    }
    assert(dir_views(dirs@).take(i as int) =~= dir_views(dirs@));
    copies
}

/// The directories of a list as mathematics.
pub open spec fn dir_views(dirs: Seq<WorkDir>) -> Seq<WorkDirView> {
    dirs.map_values(|d: WorkDir| d@)
}

/// Two directories with single names for paths are the same where their names are, and only there.
pub proof fn law_names_tell_directories_apart(a: WorkDirView, b: WorkDirView)
    requires
        components_of(a.display, a.components),
        components_of(b.display, b.components),
        is_plain_name(a.display),
        is_plain_name(b.display),
    ensures
        a.components == b.components <==> a.display == b.display,
{
    if a.components == b.components {
        assert(a.components[0] == b.components[0]);
        vstd::utf8::encode_utf8_decode_utf8(a.display);
        vstd::utf8::encode_utf8_decode_utf8(b.display);
    }
}

/// Two portable paths are the same directory where they have the same root and names, and only
/// there.
pub proof fn law_portable_paths_are_compared_by_names(a: WorkDirView, b: WorkDirView)
    requires
        components_of(a.display, a.components),
        components_of(b.display, b.components),
        is_portable(a.display),
        is_portable(b.display),
    ensures
        a.components == b.components <==> portable_components(a.display) == portable_components(
            b.display,
        ),
        a.display == b.display ==> a.components == b.components,
{
}

/// Two paths that end in different names behind a slash are different directories, also on
/// different drives.
pub proof fn law_last_names_tell_directories_apart(
    a: WorkDirView,
    b: WorkDirView,
    above_a: Seq<char>,
    above_b: Seq<char>,
    name_a: Seq<char>,
    name_b: Seq<char>,
)
    requires
        components_of(a.display, a.components),
        components_of(b.display, b.components),
        a.display == slashed(above_a, name_a),
        b.display == slashed(above_b, name_b),
        is_plain_name(name_a) && name_a != seq!['.'],
        is_plain_name(name_b) && name_b != seq!['.'],
        !begins_with_two_separators(a.display),
        !begins_with_two_separators(b.display),
        name_a != name_b,
    ensures
        a.components != b.components,
{
    vstd::utf8::encode_utf8_decode_utf8(name_a);
    vstd::utf8::encode_utf8_decode_utf8(name_b);
}

} // verus!
