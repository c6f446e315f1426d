//! The registry of helpers: which program loads or edits which MIME type.

use crate::api_common::SandboxMechanism;
use crate::error::Error;
use crate::operations::OperationId;
use crate::order::{
    lemma_text_order_goes_on, lemma_text_order_is_strict, lemma_text_order_is_total, precedes,
    text_before,
};
use crate::text::{after, before, split_first, str_equal, trim, trimmed};
use vstd::prelude::*;
use vstd::string::*;

verus! {

/// Version of the protocol between host and helpers. It is part of the path
/// under which the registry lies.
pub const COMPAT_VERSION: u8 = 2;

/// Mime type
#[derive(Debug, Clone)]
pub enum MimeType {
    Alloc(String),
    Stack(&'static str),
}

impl View for MimeType {
    type V = Seq<char>;

    open spec fn view(&self) -> Seq<char> {
        match self {
            MimeType::Alloc(s) => s@,
            MimeType::Stack(s) => s@,
        }
    }
}

impl MimeType {
    pub fn new(mime_type: String) -> (mime: MimeType)
        ensures
            mime@ == mime_type@,
    {
        MimeType::Alloc(mime_type)
    }

    pub fn new_static(mime_type: &'static str) -> (mime: MimeType)
        ensures
            mime@ == mime_type@,
    {
        MimeType::Stack(mime_type)
    }

    pub fn as_str(&self) -> (text: &str)
        ensures
            text@ == self@,
    {
        match self {
            MimeType::Alloc(s) => s.as_str(),
            MimeType::Stack(s) => s,
        }
    }

    /// Tells whether this MIME type stands before the other in the order of
    /// texts.
    pub fn precedes(&self, other: &MimeType) -> (before: bool)
        ensures
            before == text_before(self@, other@),
    {
        precedes(self.as_str(), other.as_str())
    }

    /// The MIME type as text of its own.
    pub fn to_text(&self) -> (text: String)
        ensures
            text@ == self@,
    {
        self.as_str().to_owned()
    }

    pub fn jpeg() -> (mime: MimeType)
        ensures
            mime@ == "image/jpeg"@,
    {
        MimeType::Stack("image/jpeg")
    }

    pub fn png() -> (mime: MimeType)
        ensures
            mime@ == "image/png"@,
    {
        MimeType::Stack("image/png")
    }

    pub fn avif() -> (mime: MimeType)
        ensures
            mime@ == "image/avif"@,
    {
        MimeType::Stack("image/avif")
    }
}

impl PartialEq for MimeType {
    fn eq(&self, other: &MimeType) -> (equal: bool) {
        str_equal(self.as_str(), other.as_str())
    }
}

impl Eq for MimeType {

}

impl vstd::std_specs::cmp::PartialEqSpecImpl for MimeType {
    open spec fn obeys_eq_spec() -> bool {
        true
    }

    open spec fn eq_spec(&self, other: &MimeType) -> bool {
        self@ == other@
    }
}

/// A helper that loads images.
#[derive(Debug, Clone, PartialEq, Eq)]
pub struct ImageLoaderConfig {
    /// The program of the helper
    pub program: String,
    pub expose_base_dir: bool,
    pub fontconfig: bool,
}

/// A helper that edits and creates images.
#[derive(Debug, Clone, PartialEq, Eq)]
pub struct ImageEditorConfig {
    /// The program of the helper
    pub program: String,
    pub expose_base_dir: bool,
    pub fontconfig: bool,
    pub operations: Vec<OperationId>,
}

/// What the registry says about a loader.
pub struct LoaderEntry {
    pub program: Seq<char>,
    pub expose_base_dir: bool,
    pub fontconfig: bool,
}

/// What the registry says about an editor.
pub struct EditorEntry {
    pub program: Seq<char>,
    pub expose_base_dir: bool,
    pub fontconfig: bool,
    pub operations: Seq<OperationId>,
}

impl View for ImageLoaderConfig {
    type V = LoaderEntry;

    open spec fn view(&self) -> LoaderEntry {
        LoaderEntry {
            program: self.program@,
            expose_base_dir: self.expose_base_dir,
            fontconfig: self.fontconfig,
        }
    }
}

impl View for ImageEditorConfig {
    type V = EditorEntry;

    open spec fn view(&self) -> EditorEntry {
        EditorEntry {
            program: self.program@,
            expose_base_dir: self.expose_base_dir,
            fontconfig: self.fontconfig,
            operations: self.operations@,
        }
    }
}

/// A helper of either kind.
#[derive(Debug, Clone, PartialEq, Eq)]
pub enum ConfigEntry {
    Editor(ImageEditorConfig),
    Loader(ImageLoaderConfig),
}

/// What tells the helper processes of the pool apart: two requests share a
/// process only where all of this is the same.
#[derive(Debug, Clone, PartialEq, Eq)]
pub struct ConfigEntryHash {
    fontconfig: bool,
    program: String,
    expose_base_dir: bool,
    base_dir: Option<String>,
    sandbox_mechanism: SandboxMechanism,
}

/// The parts of a [`ConfigEntryHash`].
pub struct EntryKey {
    pub program: Seq<char>,
    pub expose_base_dir: bool,
    pub fontconfig: bool,
    pub base_dir: Option<Seq<char>>,
    pub sandbox_mechanism: SandboxMechanism,
}

/// The text of an optional text.
pub open spec fn optional_text(text: Option<String>) -> Option<Seq<char>> {
    match text {
        Some(t) => Some(t@),
        None => None,
    }
}

impl View for ConfigEntryHash {
    type V = EntryKey;

    closed spec fn view(&self) -> EntryKey {
        EntryKey {
            program: self.program@,
            expose_base_dir: self.expose_base_dir,
            fontconfig: self.fontconfig,
            base_dir: optional_text(self.base_dir),
            sandbox_mechanism: self.sandbox_mechanism,
        }
    }
}

/// The place of a sandbox mechanism in the order of the mechanisms.
pub open spec fn rank_of(mechanism: SandboxMechanism) -> int {
    match mechanism {
        SandboxMechanism::Bwrap => 0,
        SandboxMechanism::FlatpakSpawn => 1,
        SandboxMechanism::NotSandboxed => 2,
    }
}

fn mechanism_rank(mechanism: SandboxMechanism) -> (rank: u8)
    ensures
        rank == rank_of(mechanism),
{
    match mechanism {
        SandboxMechanism::Bwrap => 0,
        SandboxMechanism::FlatpakSpawn => 1,
        SandboxMechanism::NotSandboxed => 2,
    }
}

/// Whether an optional text stands before another: no text stands before
/// each text, and two texts stand in the order of texts.
pub open spec fn optional_before(a: Option<Seq<char>>, b: Option<Seq<char>>) -> bool {
    match (a, b) {
        (None, Some(_)) => true,
        (Some(x), Some(y)) => text_before(x, y),
        _ => false,
    }
}

/// The order of the keys: the first part in which two keys differ decides,
/// of the use of the fonts, the program, the view on the directory of the
/// image, that directory, and the sandbox mechanism.
pub open spec fn key_before(a: EntryKey, b: EntryKey) -> bool {
    if a.fontconfig != b.fontconfig {
        !a.fontconfig
    } else if a.program != b.program {
        text_before(a.program, b.program)
    } else if a.expose_base_dir != b.expose_base_dir {
        !a.expose_base_dir
    } else if a.base_dir != b.base_dir {
        optional_before(a.base_dir, b.base_dir)
    } else {
        rank_of(a.sandbox_mechanism) < rank_of(b.sandbox_mechanism)
    }
}

/// No key stands before itself, and of two keys at most one stands before
/// the other.
pub proof fn lemma_key_order_is_strict(a: EntryKey, b: EntryKey)
    ensures
        !key_before(a, a),
        !(key_before(a, b) && key_before(b, a)),
{
    lemma_text_order_is_strict(a.program, b.program);
    match (a.base_dir, b.base_dir) {
        (Some(x), Some(y)) => {
            lemma_text_order_is_strict(x, y);
        },
        _ => {},
    }
}

/// Of two different keys one stands before the other.
pub proof fn lemma_key_order_is_total(a: EntryKey, b: EntryKey)
    ensures
        key_before(a, b) || key_before(b, a) || a == b,
{
    lemma_text_order_is_total(a.program, b.program);
    match (a.base_dir, b.base_dir) {
        (Some(x), Some(y)) => {
            lemma_text_order_is_total(x, y);
        },
        _ => {},
    }
}

/// A key that stands before a second stands before each key that the second
/// stands before.
pub proof fn lemma_key_order_goes_on(a: EntryKey, b: EntryKey, c: EntryKey)
    requires
        key_before(a, b),
        key_before(b, c),
    ensures
        key_before(a, c),
{
    lemma_text_order_is_strict(a.program, b.program);
    lemma_text_order_is_strict(b.program, c.program);
    if text_before(a.program, b.program) && text_before(b.program, c.program) {
        lemma_text_order_goes_on(a.program, b.program, c.program);
        lemma_text_order_is_strict(a.program, c.program);
    }
    match (a.base_dir, b.base_dir, c.base_dir) {
        (Some(x), Some(y), Some(z)) => {
            lemma_text_order_is_strict(x, y);
            lemma_text_order_is_strict(y, z);
            if text_before(x, y) && text_before(y, z) {
                lemma_text_order_goes_on(x, y, z);
                lemma_text_order_is_strict(x, z);
            }
        },
        _ => {},
    }
}

impl ConfigEntryHash {
    pub fn exec(&self) -> (exec: &str)
        ensures
            exec@ == self@.program,
    {
        self.program.as_str()
    }

    /// A copy of the key.
    pub fn duplicate(&self) -> (copy: ConfigEntryHash)
        ensures
            copy@ == self@,
    {
        ConfigEntryHash {
            fontconfig: self.fontconfig,
            program: self.program.clone(),
            expose_base_dir: self.expose_base_dir,
            base_dir: match &self.base_dir {
                Some(dir) => Some(dir.clone()),
                None => None,
            },
            sandbox_mechanism: self.sandbox_mechanism,
        }
    }

    /// Tells whether this key stands before the other in the order of the
    /// keys.
    pub fn precedes(&self, other: &ConfigEntryHash) -> (before: bool)
        ensures
            before == key_before(self@, other@),
    {
        if self.fontconfig != other.fontconfig {
            return !self.fontconfig;
        }
        if !str_equal(self.program.as_str(), other.program.as_str()) {
            return precedes(self.program.as_str(), other.program.as_str());
        }
        if self.expose_base_dir != other.expose_base_dir {
            return !self.expose_base_dir;
        }
        match (&self.base_dir, &other.base_dir) {
            (Some(a), Some(b)) => {
                if !str_equal(a.as_str(), b.as_str()) {
                    return precedes(a.as_str(), b.as_str());
                }
            },
            (None, Some(_)) => {
                return true;
            },
            (Some(_), None) => {
                return false;
            },
            (None, None) => {},
        }
        mechanism_rank(self.sandbox_mechanism) < mechanism_rank(other.sandbox_mechanism)
    }

    /// Tells whether both stand for the same helper process.
    pub fn same(&self, other: &ConfigEntryHash) -> (same: bool)
        ensures
            same == (self@ == other@),
    {
        let same_base = match (&self.base_dir, &other.base_dir) {
            (Some(a), Some(b)) => str_equal(a.as_str(), b.as_str()),
            (None, None) => true,
            _ => false,
        };
        let same_mechanism = match (self.sandbox_mechanism, other.sandbox_mechanism) {
            (SandboxMechanism::Bwrap, SandboxMechanism::Bwrap) => true,
            (SandboxMechanism::FlatpakSpawn, SandboxMechanism::FlatpakSpawn) => true,
            (SandboxMechanism::NotSandboxed, SandboxMechanism::NotSandboxed) => true,
            _ => false,
        };
        self.fontconfig == other.fontconfig && self.expose_base_dir == other.expose_base_dir
            && same_base && same_mechanism && str_equal(self.program.as_str(), other.program.as_str())
    }
}

impl ConfigEntry {
    /// The program of the helper.
    pub open spec fn program(&self) -> Seq<char> {
        match self {
            ConfigEntry::Editor(e) => e.program@,
            ConfigEntry::Loader(l) => l.program@,
        }
    }

    /// Whether the helper uses the fonts of the system.
    pub open spec fn uses_fontconfig(&self) -> bool {
        match self {
            ConfigEntry::Editor(e) => e.fontconfig,
            ConfigEntry::Loader(l) => l.fontconfig,
        }
    }

    /// Whether the helper asks to see the directory of the image.
    pub open spec fn wants_base_dir(&self) -> bool {
        match self {
            ConfigEntry::Editor(e) => e.expose_base_dir,
            ConfigEntry::Loader(l) => l.expose_base_dir,
        }
    }

    pub fn hash_value(&self, base_dir: Option<String>, sandbox_mechanism: SandboxMechanism) -> (key:
        ConfigEntryHash)
        ensures
            key@ == (EntryKey {
                program: self.program(),
                expose_base_dir: self.wants_base_dir(),
                fontconfig: self.uses_fontconfig(),
                base_dir: optional_text(base_dir),
                sandbox_mechanism,
            }),
    {
        ConfigEntryHash {
            fontconfig: self.fontconfig(),
            program: self.exec(),
            expose_base_dir: self.expose_base_dir(),
            base_dir,
            sandbox_mechanism,
        }
    }

    pub fn fontconfig(&self) -> (fontconfig: bool)
        ensures
            fontconfig == self.uses_fontconfig(),
    {
        match self {
            ConfigEntry::Editor(e) => e.fontconfig,
            ConfigEntry::Loader(l) => l.fontconfig,
        }
    }

    pub fn exec(&self) -> (exec: String)
        ensures
            exec@ == self.program(),
    {
        match self {
            ConfigEntry::Editor(e) => e.program.clone(),
            ConfigEntry::Loader(l) => l.program.clone(),
        }
    }

    pub fn expose_base_dir(&self) -> (expose: bool)
        ensures
            expose == self.wants_base_dir(),
    {
        match self {
            ConfigEntry::Editor(e) => e.expose_base_dir,
            ConfigEntry::Loader(l) => l.expose_base_dir,
        }
    }
}

/// The values of one group of a configuration file.
#[derive(Debug, Clone, PartialEq, Eq)]
pub struct ConfigGroup {
    /// The header of the group: kind and MIME type with a colon between them
    pub name: String,
    /// Value of the key `Exec`
    pub program: Option<String>,
    /// Value of the key `ExposeBaseDir`
    pub expose_base_dir: Option<bool>,
    /// Value of the key `Fontconfig`
    pub fontconfig: Option<bool>,
    /// Values of the key `Operations`
    pub operations: Option<Vec<String>>,
}

/// The kind of helper that a group describes.
#[derive(Debug, Clone, Copy, PartialEq, Eq, Structural)]
pub enum GroupKind {
    Loader,
    Editor,
}

/// The kind that a group header names: the text before its first colon.
pub open spec fn header_kind(name: Seq<char>) -> Option<GroupKind> {
    let kind = before(trim(name), ':');
    if kind == "loader"@ {
        Some(GroupKind::Loader)
    } else if kind == "editor"@ {
        Some(GroupKind::Editor)
    } else {
        None
    }
}

/// The MIME type that a group header names: the text between its first colon
/// and its second, or its end.
pub open spec fn header_mime(name: Seq<char>) -> Option<Seq<char>> {
    match after(trim(name), ':') {
        Some(rest) => Some(before(rest, ':')),
        None => None,
    }
}

/// The kinds that the names stand for; names of no kind are left out.
pub open spec fn known_operations(names: Seq<String>) -> Seq<OperationId>
    decreases names.len(),
{
    if names.len() == 0 {
        Seq::empty()
    } else {
        let head = known_operations(names.drop_last());
        match OperationId::of_name(names.last()@) {
            Some(id) => head.push(id),
            None => head,
        }
    }
}

/// The operations that a group lists.
pub open spec fn group_operations(group: ConfigGroup) -> Seq<OperationId> {
    match group.operations {
        Some(names) => known_operations(names@),
        None => Seq::empty(),
    }
}

/// The map that a list of entries stands for: a later entry replaces an
/// earlier one of the same MIME type.
pub open spec fn entries_map<C: View>(entries: Seq<(MimeType, C)>) -> Map<Seq<char>, C::V>
    decreases entries.len(),
{
    if entries.len() == 0 {
        Map::empty()
    } else {
        entries_map(entries.drop_last()).insert(entries.last().0@, entries.last().1@)
    }
}

/// A list without entries stands for the empty map, and no other list does.
pub proof fn lemma_entries_map_empty<C: View>(entries: Seq<(MimeType, C)>)
    ensures
        entries.len() == 0 <==> entries_map(entries) == Map::<Seq<char>, C::V>::empty(),
{
    if entries.len() > 0 {
        assert(entries_map(entries).contains_key(entries.last().0@));
    }
}

/// The registry: for each MIME type its loader and its editor.
#[derive(Debug, Clone, PartialEq, Eq)]
pub struct Config {
    image_loader: Vec<(MimeType, ImageLoaderConfig)>,
    image_editor: Vec<(MimeType, ImageEditorConfig)>,
}

/// The registry with the group added, as far as the group describes a helper:
/// its header names a kind and a MIME type, and it has a program.
pub open spec fn loaders_with_group(
    loaders: Map<Seq<char>, LoaderEntry>,
    group: ConfigGroup,
) -> Map<Seq<char>, LoaderEntry> {
    match (header_kind(group.name@), header_mime(group.name@), group.program) {
        (Some(GroupKind::Loader), Some(mime), Some(exec)) => loaders.insert(
            mime,
            LoaderEntry {
                program: exec@,
                expose_base_dir: group.expose_base_dir == Some(true),
                fontconfig: group.fontconfig == Some(true),
            },
        ),
        _ => loaders,
    }
}

/// The editors of the registry with the group added.
pub open spec fn editors_with_group(
    editors: Map<Seq<char>, EditorEntry>,
    group: ConfigGroup,
) -> Map<Seq<char>, EditorEntry> {
    match (header_kind(group.name@), header_mime(group.name@), group.program) {
        (Some(GroupKind::Editor), Some(mime), Some(exec)) => editors.insert(
            mime,
            EditorEntry {
                program: exec@,
                expose_base_dir: group.expose_base_dir == Some(true),
                fontconfig: group.fontconfig == Some(true),
                operations: group_operations(group),
            },
        ),
        _ => editors,
    }
}

/// The loaders after the first `count` groups were added in their order.
pub open spec fn loaders_with_groups(
    loaders: Map<Seq<char>, LoaderEntry>,
    groups: Seq<ConfigGroup>,
    count: nat,
) -> Map<Seq<char>, LoaderEntry>
    decreases count,
{
    if count == 0 {
        loaders
    } else {
        loaders_with_group(
            loaders_with_groups(loaders, groups, (count - 1) as nat),
            groups[count - 1],
        )
    }
}

/// The editors after the first `count` groups were added in their order.
pub open spec fn editors_with_groups(
    editors: Map<Seq<char>, EditorEntry>,
    groups: Seq<ConfigGroup>,
    count: nat,
) -> Map<Seq<char>, EditorEntry>
    decreases count,
{
    if count == 0 {
        editors
    } else {
        editors_with_group(
            editors_with_groups(editors, groups, (count - 1) as nat),
            groups[count - 1],
        )
    }
}

/// Looks an entry up by its MIME type.
fn find_entry<'a, C: View>(entries: &'a Vec<(MimeType, C)>, mime_type: &MimeType) -> (found: Option<
    &'a C,
>)
    ensures
        match found {
            Some(entry) => entries_map(entries@).contains_key(mime_type@) && entries_map(
                entries@,
            )[mime_type@] == entry@,
            None => !entries_map(entries@).contains_key(mime_type@),
        },
{
    let mut i: usize = entries.len();
    assert(entries@.subrange(0, i as int) =~= entries@);
    while i > 0
        invariant
            i <= entries@.len(),
            entries_map(entries@).contains_key(mime_type@) == entries_map(
                entries@.subrange(0, i as int),
            ).contains_key(mime_type@),
            entries_map(entries@).contains_key(mime_type@) ==> entries_map(entries@)[mime_type@]
                == entries_map(entries@.subrange(0, i as int))[mime_type@],
        decreases i,
    {
        let ghost head = entries@.subrange(0, i as int);
        assert(head.drop_last() =~= entries@.subrange(0, i - 1));
        assert(head.last() == entries@[i - 1]);
        i -= 1;
        if str_equal(entries[i].0.as_str(), mime_type.as_str()) {
            return Some(&entries[i].1);
        }
    }
    None
}

/// Reads the header of a group.
pub fn parse_header(name: &str) -> (header: (Option<GroupKind>, Option<String>))
    ensures
        header.0 == header_kind(name@),
        optional_text(header.1) == header_mime(name@),
{
    let inner = trimmed(name);
    let (kind, rest) = split_first(inner, ':');
    let mime = match rest {
        Some(rest) => Some(split_first(rest, ':').0.to_owned()),
        None => None,
    };
    let kind = if str_equal(kind, "loader") {
        Some(GroupKind::Loader)
    } else if str_equal(kind, "editor") {
        Some(GroupKind::Editor)
    } else {
        None
    };
    (kind, mime)
}

/// The kinds of the operations that the names stand for.
pub fn parse_operations(names: &Vec<String>) -> (operations: Vec<OperationId>)
    ensures
        operations@ == known_operations(names@),
{
    let mut operations: Vec<OperationId> = Vec::new();
    let mut i: usize = 0;
    while i < names.len()
        invariant
            i <= names@.len(),
            operations@ == known_operations(names@.subrange(0, i as int)),
        decreases names@.len() - i,
    {
        let ghost head = names@.subrange(0, i + 1);
        assert(head.drop_last() =~= names@.subrange(0, i as int));
        assert(head.last() == names@[i as int]);
        match OperationId::from_name(names[i].as_str()) {
            Some(id) => {
                operations.push(id);
            },
            None => {},
        }
        i += 1;
    }
    assert(names@.subrange(0, i as int) =~= names@);
    operations
}

impl Config {
    /// The loader of each MIME type.
    pub closed spec fn loaders(&self) -> Map<Seq<char>, LoaderEntry> {
        entries_map(self.image_loader@)
    }

    /// The editor of each MIME type.
    pub closed spec fn editors(&self) -> Map<Seq<char>, EditorEntry> {
        entries_map(self.image_editor@)
    }

    /// A registry without helpers.
    pub fn new() -> (config: Config)
        ensures
            config.loaders() == Map::<Seq<char>, LoaderEntry>::empty(),
            config.editors() == Map::<Seq<char>, EditorEntry>::empty(),
    {
        Config { image_loader: Vec::new(), image_editor: Vec::new() }
    }

    /// The loader for a MIME type.
    pub fn loader(&self, mime_type: &MimeType) -> (res: Result<&ImageLoaderConfig, Error>)
        ensures
            match res {
                Ok(loader) => self.loaders().contains_key(mime_type@) && loader@
                    == self.loaders()[mime_type@],
                Err(Error::NoLoadersConfigured) => self.loaders() == Map::<
                    Seq<char>,
                    LoaderEntry,
                >::empty(),
                Err(Error::UnknownImageFormat(name)) => name@ == mime_type@
                    && !self.loaders().contains_key(mime_type@) && self.loaders() != Map::<
                    Seq<char>,
                    LoaderEntry,
                >::empty(),
                Err(_) => false,
            },
    {
        proof {
            lemma_entries_map_empty(self.image_loader@);
        }
        if self.image_loader.len() == 0 {
            return Err(Error::NoLoadersConfigured);
        }
        match find_entry(&self.image_loader, mime_type) {
            Some(loader) => Ok(loader),
            None => Err(Error::UnknownImageFormat(mime_type.to_text())),
        }
    }

    /// The editor for a MIME type.
    pub fn editor(&self, mime_type: &MimeType) -> (res: Result<&ImageEditorConfig, Error>)
        ensures
            match res {
                Ok(editor) => self.editors().contains_key(mime_type@) && editor@
                    == self.editors()[mime_type@],
                Err(Error::UnknownImageFormat(name)) => name@ == mime_type@
                    && !self.editors().contains_key(mime_type@),
                Err(_) => false,
            },
    {
        match find_entry(&self.image_editor, mime_type) {
            Some(editor) => Ok(editor),
            None => Err(Error::UnknownImageFormat(mime_type.to_text())),
        }
    }

    /// Tells whether the loader of a MIME type asks to see the directory of
    /// the image.
    pub fn expose_base_dir(&self, mime_type: &MimeType) -> (res: Result<bool, Error>)
        ensures
            match res {
                Ok(expose) => self.loaders().contains_key(mime_type@) && expose
                    == self.loaders()[mime_type@].expose_base_dir,
                Err(Error::NoLoadersConfigured) => self.loaders() == Map::<
                    Seq<char>,
                    LoaderEntry,
                >::empty(),
                Err(Error::UnknownImageFormat(name)) => name@ == mime_type@
                    && !self.loaders().contains_key(mime_type@) && self.loaders() != Map::<
                    Seq<char>,
                    LoaderEntry,
                >::empty(),
                Err(_) => false,
            },
    {
        match self.loader(mime_type) {
            Ok(loader) => Ok(loader.expose_base_dir),
            Err(e) => Err(e),
        }
    }

    /// Adds what one group of a configuration file says. A group whose
    /// header names no kind or no MIME type, or that has no program, is
    /// passed over; a helper that was there for the MIME type is replaced.
    pub fn load_group(&mut self, group: &ConfigGroup)
        ensures
            final(self).loaders() == loaders_with_group(old(self).loaders(), *group),
            final(self).editors() == editors_with_group(old(self).editors(), *group),
    {
        let (kind, mime) = parse_header(group.name.as_str());
        let mime = match mime {
            Some(mime) => mime,
            None => {
                return ;
            },
        };
        let exec = match &group.program {
            Some(exec) => exec.clone(),
            None => {
                return ;
            },
        };
        let expose_base_dir = match group.expose_base_dir {
            Some(value) => value,
            None => false,
        };
        let fontconfig = match group.fontconfig {
            Some(value) => value,
            None => false,
        };
        match kind {
            Some(GroupKind::Loader) => {
                let ghost before = self.image_loader@;
                self.image_loader.push(
                    (MimeType::new(mime), ImageLoaderConfig { program: exec, expose_base_dir, fontconfig }),
                );
                assert(self.image_loader@.drop_last() =~= before);
            },
            Some(GroupKind::Editor) => {
                let operations = match &group.operations {
                    Some(names) => parse_operations(names),
                    None => Vec::new(),
                };
                let ghost before = self.image_editor@;
                self.image_editor.push(
                    (
                        MimeType::new(mime),
                        ImageEditorConfig { program: exec, expose_base_dir, fontconfig, operations },
                    ),
                );
                assert(self.image_editor@.drop_last() =~= before);
            },
            None => {},
        }
    }

    /// Adds the groups of a configuration file in their order.
    pub fn load_groups(&mut self, groups: &Vec<ConfigGroup>)
        ensures
            final(self).loaders() == loaders_with_groups(
                old(self).loaders(),
                groups@,
                groups@.len(),
            ),
            final(self).editors() == editors_with_groups(
                old(self).editors(),
                groups@,
                groups@.len(),
            ),
    {
        let ghost loaders = self.loaders();
        let ghost editors = self.editors();
        let mut i: usize = 0;
        while i < groups.len()
            invariant
                i <= groups@.len(),
                self.loaders() == loaders_with_groups(loaders, groups@, i as nat),
                self.editors() == editors_with_groups(editors, groups@, i as nat),
            decreases groups@.len() - i,
        {
            self.load_group(&groups[i]);
            i += 1;
        }
    }
}

/// The directories in which registries are looked for: the one that the
/// caller forces, or else those of the system followed by the one of the user.
pub open spec fn data_dirs_of(forced: Option<String>, system: Seq<String>, user: String) -> Seq<
    String,
> {
    match forced {
        Some(dir) => seq![dir],
        None => system.push(user),
    }
}

/// Tells the directories in which registries are looked for.
pub fn data_dirs(forced: Option<String>, system: Vec<String>, user: String) -> (dirs: Vec<String>)
    ensures
        dirs@ == data_dirs_of(forced, system@, user),
{
    match forced {
        Some(dir) => {
            let mut dirs: Vec<String> = Vec::new();
            dirs.push(dir);
            assert(dirs@ =~= seq![dir]);
            dirs
        },
        None => {
            let mut dirs = system;
            dirs.push(user);
            dirs
        },
    }
}

/// The place of the registry below a data directory.
pub open spec fn registry_path() -> Seq<char> {
    "/glycin-loaders/2+/conf.d"@
}

/// The directory of the registry below a data directory.
pub fn config_dir(data_dir: &str) -> (dir: String)
    ensures
        dir@ == data_dir@ + registry_path(),
{
    data_dir.to_owned().concat("/glycin-loaders/2+/conf.d")
}

} // verus!
