//! The plugin host: it owns every loaded plugin together with the library it
//! came from, absorbs what a directory scan found, and routes messages between
//! one inbound stream and all plugins (see the streaming functions).
//!
//! Opening a native module and running its registration entry point execute
//! foreign code and stay with the embedding layer; the host receives, for each
//! directory entry, what that probe observed — whether the entry is a regular
//! file, whether the well-known symbol is present, the declaration under it,
//! and the plugins its entry point registered — and decides everything else:
//! which names count as library files, which declarations are compatible, what
//! every file's outcome is, and what gets appended where.

use vstd::prelude::*;

use crate::plugin::CommandDeclaration;
use crate::plugin::CommandDeclarationView;
use crate::plugin::Plugin;
use crate::plugin::PluginInfo;
use crate::plugin::PluginProxy;
use crate::plugin::PluginRegistrar;
use crate::text::ends_with_str;

verus! {

/// One loaded native module, as the host keeps it: the file it came from.
/// The host's library list is the arena that owns every module; proxies refer
/// to a module by its position in that list.
#[derive(Debug, PartialEq, Eq)]
pub struct LibraryRecord {
    pub name: String,
}

impl DeepView for LibraryRecord {
    type V = Seq<char>;

    open spec fn deep_view(&self) -> Seq<char> {
        self.name@
    }
}

/// What probing one directory entry observed: the entry is no regular file,
/// or a file that would not open as a native module, or an opened module —
/// and then the probe reports the declaration found under the well-known
/// symbol, if any, together with the plugins that the module's registration
/// entry point registered.
#[derive(Debug)]
pub enum FileEntry<P> {
    /// The entry is not a regular file.
    NotAFile { name: String },
    /// A regular file the embedding could not open as a native module.
    Unreadable { name: String },
    /// The entry is a regular file; `symbol` is what looking up the well-known
    /// symbol gave.
    File { name: String, symbol: Option<(CommandDeclaration, Vec<P>)> },
}

/// Which field of an ABI declaration disagreed with the host.
#[derive(Debug, PartialEq, Eq, Clone, Copy)]
pub enum AbiField {
    Compiler,
    Core,
}

/// An ABI declaration named another compiler or core version than the host's:
/// the offending field with both the expected and the actual value.
#[derive(Debug, PartialEq, Eq)]
pub struct AbiMismatch {
    pub field: AbiField,
    pub expected: String,
    pub found: String,
}

/// Mathematical image of an [`AbiMismatch`].
pub ghost struct AbiMismatchView {
    pub field: AbiField,
    pub expected: Seq<char>,
    pub found: Seq<char>,
}

impl DeepView for AbiMismatch {
    type V = AbiMismatchView;

    open spec fn deep_view(&self) -> AbiMismatchView {
        AbiMismatchView { field: self.field, expected: self.expected@, found: self.found@ }
    }
}

/// The stated reason a directory entry ended as it did: skipped, rejected, or
/// loaded with the number of plugins it contributed.
#[derive(Debug, PartialEq, Eq)]
pub enum FileOutcome {
    /// The entry is not a regular file.
    SkippedNotAFile,
    /// The file name carries no dynamic-library extension.
    SkippedExtension,
    /// The file could not be opened as a native module.
    SkippedUnreadable,
    /// The file exports no ABI symbol: not a plugin, silently skipped.
    SkippedNoSymbol,
    /// The declaration is incompatible; the module was not registered.
    Rejected(AbiMismatch),
    /// The module was registered with this many plugins.
    Loaded { plugins: usize },
}

/// Mathematical image of a [`FileOutcome`].
pub ghost enum FileOutcomeView {
    SkippedNotAFile,
    SkippedExtension,
    SkippedUnreadable,
    SkippedNoSymbol,
    Rejected(AbiMismatchView),
    Loaded { plugins: int },
}

impl DeepView for FileOutcome {
    type V = FileOutcomeView;

    open spec fn deep_view(&self) -> FileOutcomeView {
        match self {
            FileOutcome::SkippedNotAFile => FileOutcomeView::SkippedNotAFile,
            FileOutcome::SkippedExtension => FileOutcomeView::SkippedExtension,
            FileOutcome::SkippedUnreadable => FileOutcomeView::SkippedUnreadable,
            FileOutcome::SkippedNoSymbol => FileOutcomeView::SkippedNoSymbol,
            FileOutcome::Rejected(m) => FileOutcomeView::Rejected(m.deep_view()),
            FileOutcome::Loaded { plugins } => FileOutcomeView::Loaded {
                plugins: *plugins as int,
            },
        }
    }
}

/// The error of a whole directory scan: the given path was not a directory.
#[derive(Debug, PartialEq, Eq)]
pub enum LoadError {
    NotADirectory,
}

/// Whether a file name carries the extension of a native library.
pub open spec fn spec_is_library_name(name: Seq<char>) -> bool {
    (name.len() >= ".so"@.len() && name.skip(name.len() - ".so"@.len() as int) == ".so"@) || (
    name.len() >= ".dll"@.len() && name.skip(name.len() - ".dll"@.len() as int) == ".dll"@)
}

/// Decides whether a file name is a candidate native library.
pub fn has_library_extension(name: &str) -> (r: bool)
    ensures
        r == spec_is_library_name(name@),
{
    if ends_with_str(name, ".so") {
        return true;
    }
    ends_with_str(name, ".dll")
}

/// Whether a declaration is compatible with the host: both the compiler
/// fingerprint and the core version agree, byte for byte.
pub open spec fn spec_abi_ok(host: CommandDeclarationView, decl: CommandDeclarationView) -> bool {
    decl.rustc_version == host.rustc_version && decl.core_version == host.core_version
}

/// The mismatch a declaration is rejected with: the compiler fingerprint is
/// checked first, the core version second.
pub open spec fn spec_abi_mismatch(
    host: CommandDeclarationView,
    decl: CommandDeclarationView,
) -> AbiMismatchView {
    if decl.rustc_version != host.rustc_version {
        AbiMismatchView {
            field: AbiField::Compiler,
            expected: host.rustc_version,
            found: decl.rustc_version,
        }
    } else {
        AbiMismatchView {
            field: AbiField::Core,
            expected: host.core_version,
            found: decl.core_version,
        }
    }
}

/// Validates a module's declaration against the host's own: accepts exactly
/// when both fields agree, and names the offending field with the expected and
/// the actual value otherwise.
pub fn validate_declaration(host: &CommandDeclaration, decl: &CommandDeclaration) -> (r: Result<
    (),
    AbiMismatch,
>)
    ensures
        r is Ok <==> spec_abi_ok(host.deep_view(), decl.deep_view()),
        r is Err ==> r->Err_0.deep_view() == spec_abi_mismatch(host.deep_view(), decl.deep_view()),
{
    if !(decl.rustc_version == host.rustc_version) {
        return Result::Err(
            AbiMismatch {
                field: AbiField::Compiler,
                expected: host.rustc_version.clone(),
                found: decl.rustc_version.clone(),
            },
        );
    }
    if !(decl.core_version == host.core_version) {
        return Result::Err(
            AbiMismatch {
                field: AbiField::Core,
                expected: host.core_version.clone(),
                found: decl.core_version.clone(),
            },
        );
    }
    Result::Ok(())
}

/// The outcome one directory entry gets, decided by the entry and the host's
/// declaration alone: no sibling file can influence it.
pub open spec fn spec_file_outcome<P>(
    host: CommandDeclarationView,
    entry: FileEntry<P>,
) -> FileOutcomeView {
    match entry {
        FileEntry::NotAFile { .. } => FileOutcomeView::SkippedNotAFile,
        FileEntry::Unreadable { name } => {
            if !spec_is_library_name(name@) {
                FileOutcomeView::SkippedExtension
            } else {
                FileOutcomeView::SkippedUnreadable
            }
        },
        FileEntry::File { name, symbol } => {
            if !spec_is_library_name(name@) {
                FileOutcomeView::SkippedExtension
            } else {
                match symbol {
                    Option::None => FileOutcomeView::SkippedNoSymbol,
                    Option::Some((decl, plugins)) => {
                        if spec_abi_ok(host, decl.deep_view()) {
                            FileOutcomeView::Loaded { plugins: plugins@.len() as int }
                        } else {
                            FileOutcomeView::Rejected(spec_abi_mismatch(host, decl.deep_view()))
                        }
                    },
                }
            }
        },
    }
}

/// Whether an entry's module gets registered.
pub open spec fn spec_file_accepted<P>(
    host: CommandDeclarationView,
    entry: FileEntry<P>,
) -> bool {
    spec_file_outcome(host, entry) is Loaded
}

/// The proxies that registering these plugins under the given library makes.
pub open spec fn spec_proxies_of<P>(plugins: Seq<P>, library: Option<usize>) -> Seq<
    PluginProxy<P>,
> {
    plugins.map_values(|p: P| PluginProxy { plugin: p, library })
}

/// The plugins an accepted entry contributes; an entry that is skipped or
/// rejected contributes none.
pub open spec fn spec_entry_plugins<P>(entry: FileEntry<P>) -> Seq<P> {
    match entry {
        FileEntry::NotAFile { .. } => Seq::<P>::empty(),
        FileEntry::Unreadable { .. } => Seq::<P>::empty(),
        FileEntry::File { symbol, .. } => match symbol {
            Option::None => Seq::<P>::empty(),
            Option::Some((_, plugins)) => plugins@,
        },
    }
}

/// The file name of an entry.
pub open spec fn spec_entry_name<P>(entry: FileEntry<P>) -> Seq<char> {
    match entry {
        FileEntry::NotAFile { name } => name@,
        FileEntry::Unreadable { name } => name@,
        FileEntry::File { name, .. } => name@,
    }
}

/// How many of these entries get accepted.
pub open spec fn spec_accepted_count<P>(
    host: CommandDeclarationView,
    entries: Seq<FileEntry<P>>,
) -> int
    decreases entries.len(),
{
    if entries.len() == 0 {
        0
    } else {
        spec_accepted_count(host, entries.drop_last()) + (if spec_file_accepted(
            host,
            entries.last(),
        ) {
            1int
        } else {
            0int
        })
    }
}

/// The proxies a scan of these entries appends, when the first accepted entry
/// gets the library position `first_library`.
pub open spec fn spec_new_proxies<P>(
    host: CommandDeclarationView,
    entries: Seq<FileEntry<P>>,
    first_library: int,
) -> Seq<PluginProxy<P>>
    decreases entries.len(),
{
    if entries.len() == 0 {
        Seq::<PluginProxy<P>>::empty()
    } else {
        spec_new_proxies(host, entries.drop_last(), first_library) + (if spec_file_accepted(
            host,
            entries.last(),
        ) {
            spec_proxies_of(
                spec_entry_plugins(entries.last()),
                Option::Some(
                    (first_library + spec_accepted_count(host, entries.drop_last())) as usize,
                ),
            )
        } else {
            Seq::<PluginProxy<P>>::empty()
        })
    }
}

/// The names of the libraries a scan of these entries appends, in order.
pub open spec fn spec_new_library_names<P>(
    host: CommandDeclarationView,
    entries: Seq<FileEntry<P>>,
) -> Seq<Seq<char>>
    decreases entries.len(),
{
    if entries.len() == 0 {
        Seq::<Seq<char>>::empty()
    } else {
        spec_new_library_names(host, entries.drop_last()) + (if spec_file_accepted(
            host,
            entries.last(),
        ) {
            seq![spec_entry_name(entries.last())]
        } else {
            Seq::<Seq<char>>::empty()
        })
    }
}

/// The plugin host. It owns the full set of proxies plus every library they
/// came from; both lists only ever grow, and every proxy that names a library
/// names one the host holds — the invariant that keeps a native module alive
/// for as long as any plugin from it is reachable.
#[derive(Debug)]
pub struct Plugins<P> {
    pub commands: Vec<PluginProxy<P>>,
    pub libraries: Vec<LibraryRecord>,
}

impl<P: Plugin> Plugins<P> {
    /// Every proxy that names a library names a position the host holds.
    pub open spec fn wf(&self) -> bool {
        forall|i: int|
            0 <= i < self.commands@.len() ==> match #[trigger] self.commands@[i].library {
                Option::Some(l) => l < self.libraries@.len(),
                Option::None => true,
            }
    }

    /// A fresh host with no plugins and no libraries.
    pub fn new() -> (r: Plugins<P>)
        ensures
            r.commands@ == Seq::<PluginProxy<P>>::empty(),
            r.libraries@ == Seq::<LibraryRecord>::empty(),
            r.wf(),
    {
        let r = Plugins { commands: Vec::new(), libraries: Vec::new() };
        proof {
            assert(r.commands@ =~= Seq::<PluginProxy<P>>::empty());
            assert(r.libraries@ =~= Seq::<LibraryRecord>::empty());
        }
        r
    }

    /// The loaded proxies, in registration order.
    pub fn iter(&self) -> (r: &Vec<PluginProxy<P>>)
        ensures
            r@ == self.commands@,
    {
        &self.commands
    }

    /// Absorbs one probed directory entry: decides its outcome, and appends
    /// its plugins and its library exactly when the entry is a compatible
    /// plugin module. No other entry and no host state influences the
    /// decision, and nothing is ever removed.
    pub fn load_file(&mut self, host: &CommandDeclaration, entry: FileEntry<P>) -> (o: FileOutcome)
        requires
            old(self).wf(),
        ensures
            final(self).wf(),
            o.deep_view() == spec_file_outcome(host.deep_view(), entry),
            spec_file_accepted(host.deep_view(), entry) ==> {
                &&& final(self).commands@ == old(self).commands@ + spec_proxies_of(
                    spec_entry_plugins(entry),
                    Option::Some(old(self).libraries@.len() as usize),
                )
                &&& final(self).libraries.deep_view() == old(self).libraries.deep_view().push(
                    spec_entry_name(entry),
                )
            },
            !spec_file_accepted(host.deep_view(), entry) ==> {
                &&& final(self).commands@ == old(self).commands@
                &&& final(self).libraries@ == old(self).libraries@
            },
    {
        let ghost hostv = host.deep_view();
        let ghost e_name = spec_entry_name(entry);
        let ghost e_plugins = spec_entry_plugins(entry);
        match entry {
            FileEntry::NotAFile { name: _ } => FileOutcome::SkippedNotAFile,
            FileEntry::Unreadable { name } => {
                if !has_library_extension(name.as_str()) {
                    FileOutcome::SkippedExtension
                } else {
                    FileOutcome::SkippedUnreadable
                }
            },
            FileEntry::File { name, symbol } => {
                if !has_library_extension(name.as_str()) {
                    return FileOutcome::SkippedExtension;
                }
                match symbol {
                    Option::None => FileOutcome::SkippedNoSymbol,
                    Option::Some((decl, plugins)) => {
                        match validate_declaration(host, &decl) {
                            Result::Err(mismatch) => FileOutcome::Rejected(mismatch),
                            Result::Ok(()) => {
                                let count = plugins.len();
                                let library = Option::Some(self.libraries.len());
                                let ghost plugins_seq = plugins@;
                                let mut registrar = PluginRegistrar::<P>::new(library);
                                let mut rest = plugins;
                                let ghost total = plugins_seq.len() as int;
                                proof {
                                    assert(e_plugins == plugins_seq);
                                    assert(rest@ =~= plugins_seq.skip(0));
                                    assert(registrar.commands@ =~= spec_proxies_of(
                                        plugins_seq.take(0),
                                        library,
                                    ));
                                }
                                while rest.len() > 0
                                    invariant
                                        registrar.bound_library() == library,
                                        rest@.len() <= total,
                                        plugins_seq.len() == total,
                                        rest@ == plugins_seq.skip(total - rest@.len()),
                                        registrar.commands@ == spec_proxies_of(
                                            plugins_seq.take(total - rest@.len()),
                                            library,
                                        ),
                                    decreases rest@.len(),
                                {
                                    let ghost done = total - rest@.len();
                                    let p = rest.remove(0);
                                    proof {
                                        assert(p == plugins_seq[done]);
                                        assert(rest@ =~= plugins_seq.skip(done + 1));
                                    }
                                    registrar.register(p);
                                    proof {
                                        assert(registrar.commands@ =~= spec_proxies_of(
                                            plugins_seq.take(done + 1),
                                            library,
                                        ));
                                    }
                                }
                                proof {
                                    assert(plugins_seq.take(total) =~= plugins_seq);
                                }
                                let ghost libs_pre = self.libraries.deep_view();
                                let ghost nview = name@;
                                self.commands.append(&mut registrar.commands);
                                self.libraries.push(LibraryRecord { name });
                                proof {
                                    assert(nview == e_name);
                                    assert(self.libraries.deep_view() =~~= libs_pre.push(e_name));
                                }
                                FileOutcome::Loaded { plugins: count }
                            },
                        }
                    },
                }
            },
        }
    }

    /// Absorbs a whole directory scan. A path that is no directory fails the
    /// scan as a whole; otherwise every entry gets its outcome independently
    /// — a rejected or skipped file never stops its siblings — and the host
    /// grows by exactly the accepted entries' plugins and libraries, in scan
    /// order. An empty scan leaves a valid host that forwards nothing.
    pub fn load_dir(
        &mut self,
        host: &CommandDeclaration,
        is_directory: bool,
        entries: Vec<FileEntry<P>>,
    ) -> (r: Result<Vec<FileOutcome>, LoadError>)
        requires
            old(self).wf(),
        ensures
            final(self).wf(),
            !is_directory ==> {
                &&& r == Result::<Vec<FileOutcome>, LoadError>::Err(LoadError::NotADirectory)
                &&& final(self).commands@ == old(self).commands@
                &&& final(self).libraries@ == old(self).libraries@
            },
            is_directory ==> {
                &&& r is Ok
                &&& r->Ok_0.deep_view().len() == entries@.len()
                &&& forall|i: int|
                    0 <= i < entries@.len() ==> r->Ok_0.deep_view()[i] == spec_file_outcome(
                        host.deep_view(),
                        entries@[i],
                    )
                &&& final(self).commands@ == old(self).commands@ + spec_new_proxies(
                    host.deep_view(),
                    entries@,
                    old(self).libraries@.len() as int,
                )
                &&& final(self).libraries.deep_view() == old(self).libraries.deep_view()
                    + spec_new_library_names(host.deep_view(), entries@)
            },
    {
        if !is_directory {
            return Result::Err(LoadError::NotADirectory);
        }
        let ghost hostv = host.deep_view();
        let ghost full = entries@;
        let ghost total = full.len() as int;
        let ghost commands0 = self.commands@;
        let ghost libraries0 = self.libraries.deep_view();
        let ghost first_library = self.libraries@.len() as int;
        let mut outcomes: Vec<FileOutcome> = Vec::new();
        let mut rest = entries;
        proof {
            assert(rest@ =~= full.skip(0));
            assert(outcomes.deep_view() =~= Seq::<FileOutcomeView>::empty());
            assert(self.commands@ =~= commands0 + spec_new_proxies(
                hostv,
                full.take(0),
                first_library,
            ));
            assert(self.libraries.deep_view() =~~= libraries0 + spec_new_library_names(
                hostv,
                full.take(0),
            ));
        }
        while rest.len() > 0
            invariant
                self.wf(),
                hostv == host.deep_view(),
                libraries0.len() == first_library,
                rest@.len() <= total,
                full.len() == total,
                rest@ == full.skip(total - rest@.len()),
                outcomes@.len() == total - rest@.len(),
                forall|i: int|
                    0 <= i < outcomes@.len() ==> outcomes.deep_view()[i] == spec_file_outcome(
                        hostv,
                        full[i],
                    ),
                self.commands@ == commands0 + spec_new_proxies(
                    hostv,
                    full.take(total - rest@.len()),
                    first_library,
                ),
                self.libraries.deep_view() == libraries0 + spec_new_library_names(
                    hostv,
                    full.take(total - rest@.len()),
                ),
                self.libraries@.len() == first_library + spec_accepted_count(
                    hostv,
                    full.take(total - rest@.len()),
                ),
            decreases rest@.len(),
        {
            let ghost done = total - rest@.len();
            let entry = rest.remove(0);
            proof {
                assert(entry == full[done]);
                assert(rest@ =~= full.skip(done + 1));
                assert(full.take(done + 1).drop_last() =~= full.take(done));
                assert(full.take(done + 1).last() == full[done]);
            }
            let ghost outcomes_pre = outcomes.deep_view();
            let ghost commands_pre = self.commands@;
            let ghost libraries_pre = self.libraries.deep_view();
            let ghost libraries_len_pre: nat = self.libraries@.len();
            let ghost entry_ghost = entry;
            let outcome = self.load_file(host, entry);
            proof {
                assert(outcome.deep_view() == spec_file_outcome(hostv, full[done]));
            }
            proof {
                assert(spec_accepted_count(hostv, full.take(done + 1))
                    == spec_accepted_count(hostv, full.take(done)) + (
                if spec_file_accepted(hostv, full[done]) {
                    1int
                } else {
                    0int
                }));
                if spec_file_accepted(hostv, full[done]) {
                    assert(libraries_len_pre == first_library + spec_accepted_count(
                        hostv,
                        full.take(done),
                    ));
                    let fresh = spec_proxies_of(
                        spec_entry_plugins(full[done]),
                        Option::Some(libraries_len_pre as usize),
                    );
                    assert(spec_file_accepted(hostv, entry_ghost));
                    assert(self.commands@ == commands_pre + spec_proxies_of(
                        spec_entry_plugins(entry_ghost),
                        Option::Some(libraries_len_pre as usize),
                    ));
                    assert(spec_entry_plugins(entry_ghost) == spec_entry_plugins(full[done]));
                    assert(self.commands@ == commands_pre + fresh);
                    assert(spec_new_proxies(hostv, full.take(done + 1), first_library)
                        == spec_new_proxies(hostv, full.take(done), first_library) + fresh);
                    assert(self.commands@ =~= commands0 + spec_new_proxies(
                        hostv,
                        full.take(done + 1),
                        first_library,
                    ));
                    assert(self.libraries.deep_view() == libraries_pre.push(
                        spec_entry_name(full[done]),
                    ));
                    assert(spec_new_library_names(hostv, full.take(done + 1))
                        == spec_new_library_names(hostv, full.take(done)) + seq![
                        spec_entry_name(full[done]),
                    ]);
                    assert(self.libraries.deep_view() =~~= libraries0 + spec_new_library_names(
                        hostv,
                        full.take(done + 1),
                    ));
                    assert(self.libraries@.len() == self.libraries.deep_view().len());
                    assert(libraries0.len() == first_library);
                } else {
                    assert(spec_new_proxies(hostv, full.take(done + 1), first_library)
                        =~= spec_new_proxies(hostv, full.take(done), first_library));
                    assert(spec_new_library_names(hostv, full.take(done + 1))
                        =~~= spec_new_library_names(hostv, full.take(done)));
                }
            }
            outcomes.push(outcome);
            proof {
                assert(outcomes.deep_view() =~~= outcomes_pre.push(
                    spec_file_outcome(hostv, full[done]),
                ));
            }
        }
        proof {
            assert(full.take(total) =~= full);
        }
        Result::Ok(outcomes)
    }
}

/// Law: an ABI declaration that differs from the host's own in either field —
/// the compiler fingerprint or the core version — is never registered; a
/// candidate library file carrying it is rejected with the offending field and
/// both values.
pub proof fn lemma_abi_mismatch_rejected<P>(
    host: CommandDeclarationView,
    name: String,
    decl: CommandDeclaration,
    plugins: Vec<P>,
)
    requires
        !spec_abi_ok(host, decl.deep_view()),
    ensures
        !spec_file_accepted(
            host,
            (FileEntry::File { name, symbol: Option::Some((decl, plugins)) }),
        ),
        spec_is_library_name(name@) ==> spec_file_outcome(
            host,
            (FileEntry::File { name, symbol: Option::Some((decl, plugins)) }),
        ) == FileOutcomeView::Rejected(spec_abi_mismatch(host, decl.deep_view())),
{
}

impl<P: Plugin> Plugin for Plugins<P> {
    /// The host looks like one plugin to its own caller: its answer to one
    /// message is every plugin's answer, concatenated in proxy-list order, or
    /// the first error by position when any plugin fails.
    open spec fn response(&self, m: crate::message::MessageView) -> Result<
        Seq<crate::message::MessageView>,
        crate::plugin::InvocationErrorView,
    > {
        spec_host_response(self.commands@, m)
    }

    /// The host's descriptor names the host itself — its own name and the
    /// core version, with an empty command list — never the union of its
    /// plugins' commands.
    open spec fn descriptor(&self) -> crate::plugin::PluginInfoView {
        crate::plugin::PluginInfoView {
            name: "Bot-RS Core"@,
            version: crate::CORE_VERSION@,
            authors: ""@,
            repo: Option::None,
            commands: Seq::<Seq<char>>::empty(),
        }
    }

    fn call(&self, message: &crate::message::Message) -> (r: Result<
        Vec<crate::message::Message>,
        crate::plugin::InvocationError,
    >)
        ensures
            crate::plugin::call_result_view(r) == self.response(message.deep_view()),
    {
        let ghost ps = self.commands@;
        let ghost mv = message.deep_view();
        let mut out: Vec<crate::message::Message> = Vec::new();
        let mut first_err: Option<crate::plugin::InvocationError> = Option::None;
        let mut j: usize = 0;
        proof {
            assert(out.deep_view() =~= Seq::<crate::message::MessageView>::empty());
            assert(spec_host_response(ps.take(0), mv) == Result::<
                Seq<crate::message::MessageView>,
                crate::plugin::InvocationErrorView,
            >::Ok(out.deep_view()));
        }
        while j < self.commands.len()
            invariant
                ps == self.commands@,
                mv == message.deep_view(),
                0 <= j <= ps.len(),
                match first_err {
                    Option::None => spec_host_response(ps.take(j as int), mv) == Result::<
                        Seq<crate::message::MessageView>,
                        crate::plugin::InvocationErrorView,
                    >::Ok(out.deep_view()),
                    Option::Some(e) => spec_host_response(ps.take(j as int), mv) == Result::<
                        Seq<crate::message::MessageView>,
                        crate::plugin::InvocationErrorView,
                    >::Err(e.deep_view()),
                },
            decreases ps.len() - j,
        {
            proof {
                assert(ps.take(j + 1).drop_last() =~= ps.take(j as int));
                assert(ps.take(j + 1).last() == ps[j as int]);
            }
            match self.commands[j].call(message) {
                Result::Ok(mut batch) => {
                    let ghost pre = out.deep_view();
                    let ghost bview = batch.deep_view();
                    out.append(&mut batch);
                    proof {
                        assert(out.deep_view() =~~= pre + bview);
                    }
                },
                Result::Err(e) => {
                    if first_err.is_none() {
                        first_err = Option::Some(e);
                    }
                },
            }
            j += 1;
        }
        proof {
            assert(ps.take(ps.len() as int) =~= ps);
        }
        match first_err {
            Option::None => Result::Ok(out),
            Option::Some(e) => Result::Err(e),
        }
    }

    /// The host's own descriptor, exactly as `descriptor` states it; callers
    /// that need the full command surface iterate the proxies instead.
    fn info(&self) -> (r: PluginInfo)
        ensures
            r.deep_view() == self.descriptor(),
    {
        let r = PluginInfo {
            name: String::from_str("Bot-RS Core"),
            version: String::from_str(crate::CORE_VERSION),
            authors: String::from_str(""),
            repo: Option::None,
            commands: Vec::new(),
        };
        proof {
            assert(r.commands.deep_view() =~= Seq::<Seq<char>>::empty());
        }
        r
    }
}

/// The host's answer to one message, as one plugin: the concatenation of
/// every plugin's answer in proxy-list order, or the first error by position.
pub open spec fn spec_host_response<Q: Plugin>(
    plugins: Seq<Q>,
    m: crate::message::MessageView,
) -> Result<Seq<crate::message::MessageView>, crate::plugin::InvocationErrorView>
    decreases plugins.len(),
{
    if plugins.len() == 0 {
        Result::Ok(Seq::<crate::message::MessageView>::empty())
    } else {
        match spec_host_response(plugins.drop_last(), m) {
            Result::Err(e) => Result::Err(e),
            Result::Ok(acc) => match plugins.last().response(m) {
                Result::Ok(batch) => Result::Ok(acc + batch),
                Result::Err(e) => Result::Err(e),
            },
        }
    }
}

} // verus!
