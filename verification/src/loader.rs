//! The module loader: a module provider that resolves any locator and serves
//! exactly one module.

use vstd::prelude::*;
use crate::locator::{join_locator, joined_locator, parse_locator, parsed_locator};
use crate::locator::{outcome_view, FaultView, LocatorFault};
use crate::source::{ContentKind, ProgramSource, ProgramSourceView};

verus! {

/// The text from which the well-known module identity is parsed.
pub const MAIN_SPECIFIER: &'static str = "test:main";

/// A module identity: the canonical serialisation of a locator. Two
/// identities are the same module exactly when their texts are equal.
#[derive(Debug)]
pub struct ModuleIdentity {
    text: String,
}

impl View for ModuleIdentity {
    type V = Seq<char>;

    closed spec fn view(&self) -> Seq<char> {
        self.text@
    }
}

/// Why a specifier did not resolve to a module identity.
#[derive(Debug)]
pub enum ResolutionError {
    /// The specifier is malformed.
    InvalidUrl(LocatorFault),
    /// The specifier is relative and the referrer is no locator.
    InvalidBaseUrl(LocatorFault),
    /// The specifier is relative and does not begin with `/`, `./` or `../`.
    ImportPrefixMissing { specifier: String, referrer: Option<String> },
}

/// What a `ResolutionError` holds, as mathematical values.
pub enum ResolutionErrorView {
    InvalidUrl(FaultView),
    InvalidBaseUrl(FaultView),
    ImportPrefixMissing { specifier: Seq<char>, referrer: Option<Seq<char>> },
}

impl View for ResolutionError {
    type V = ResolutionErrorView;

    open spec fn view(&self) -> ResolutionErrorView {
        match self {
            ResolutionError::InvalidUrl(fault) => ResolutionErrorView::InvalidUrl(fault@),
            ResolutionError::InvalidBaseUrl(fault) => ResolutionErrorView::InvalidBaseUrl(fault@),
            ResolutionError::ImportPrefixMissing { specifier, referrer } => {
                ResolutionErrorView::ImportPrefixMissing {
                    specifier: specifier@,
                    referrer: match referrer {
                        Some(text) => Some(text@),
                        None => None,
                    },
                }
            },
        }
    }
}

/// The text of the error `e`.
pub open spec fn resolution_message(e: ResolutionErrorView) -> Seq<char> {
    match e {
        ResolutionErrorView::InvalidUrl(fault) => "invalid URL: "@ + fault.reason,
        ResolutionErrorView::InvalidBaseUrl(fault) => "invalid base URL for relative import: "@
            + fault.reason,
        ResolutionErrorView::ImportPrefixMissing { specifier, referrer } => {
            let opening = "Relative import path \""@ + specifier
                + "\" not prefixed with / or ./ or ../"@;
            match referrer {
                Some(from) => opening + " from \""@ + from + "\""@,
                None => opening,
            }
        },
    }
}

impl ResolutionError {
    /// The error in words.
    pub fn message(&self) -> (text: String)
        ensures
            text@ == resolution_message(self@),
    {
        match self {
            ResolutionError::InvalidUrl(fault) => {
                String::from_str("invalid URL: ").concat(fault.reason.as_str())
            },
            ResolutionError::InvalidBaseUrl(fault) => {
                String::from_str("invalid base URL for relative import: ").concat(
                    fault.reason.as_str(),
                )
            },
            ResolutionError::ImportPrefixMissing { specifier, referrer } => {
                let opening = String::from_str("Relative import path \"").concat(
                    specifier.as_str(),
                ).concat("\" not prefixed with / or ./ or ../");
                match referrer {
                    Some(from) => opening.concat(" from \"").concat(from.as_str()).concat("\""),
                    None => opening,
                }
            },
        }
    }
}

/// A module as the loader hands it to an isolate.
#[derive(Debug)]
pub struct ResolvedModule {
    /// The program text.
    pub code: String,
    /// The kind of the program text.
    pub kind: ContentKind,
    /// The identity that was asked for.
    pub module_url_specified: String,
    /// The identity that was found: always the well-known one.
    pub module_url_found: String,
}

/// What a `ResolvedModule` holds, as mathematical values.
pub struct ResolvedModuleView {
    pub code: Seq<char>,
    pub kind: ContentKind,
    pub module_url_specified: Seq<char>,
    pub module_url_found: Seq<char>,
}

impl View for ResolvedModule {
    type V = ResolvedModuleView;

    open spec fn view(&self) -> ResolvedModuleView {
        ResolvedModuleView {
            code: self.code@,
            kind: self.kind,
            module_url_specified: self.module_url_specified@,
            module_url_found: self.module_url_found@,
        }
    }
}

/// The loader was asked for a module that it does not serve.
#[derive(Debug)]
pub struct NotFoundError {
    /// The identity that was asked for.
    pub identity: ModuleIdentity,
}

/// The text of the refusal for `identity`.
pub open spec fn not_found_message(identity: Seq<char>) -> Seq<char> {
    "Provided module specifier \""@ + identity + "\" couldn't be fetched."@
}

impl NotFoundError {
    /// The refusal in words, naming the identity that was asked for.
    pub fn message(&self) -> (text: String)
        ensures
            text@ == not_found_message(self.identity@),
    {
        let opening = String::from_str("Provided module specifier \"");
        opening.concat(self.identity.as_str()).concat("\" couldn't be fetched.")
    }
}

/// Whether a specifier begins with `/`, `./` or `../`: the only relative
/// specifiers that are resolved against a referrer.
pub open spec fn has_import_prefix(specifier: Seq<char>) -> bool {
    ||| specifier.len() >= 1 && specifier[0] == '/'
    ||| specifier.len() >= 2 && specifier[0] == '.' && specifier[1] == '/'
    ||| specifier.len() >= 3 && specifier[0] == '.' && specifier[1] == '.' && specifier[2] == '/'
}

/// What the parse of a specifier settles, given its outcome `parsed`.
///
/// A specifier that parses on its own is absolute and is the identity. A
/// malformed one is refused with its fault. One that is relative is refused
/// unless it has the import prefix; with the prefix nothing is settled yet
/// (`Ok(None)`): the referrer decides.
pub open spec fn specifier_settles(
    specifier: Seq<char>,
    referrer: Seq<char>,
    parsed: Result<Seq<char>, FaultView>,
) -> Result<Option<Seq<char>>, ResolutionErrorView> {
    match parsed {
        Ok(identity) => Ok(Some(identity)),
        Err(fault) => if !fault.relative_without_base {
            Err(ResolutionErrorView::InvalidUrl(fault))
        } else if !has_import_prefix(specifier) {
            Err(
                ResolutionErrorView::ImportPrefixMissing {
                    specifier,
                    referrer: if referrer.len() == 0 {
                        None
                    } else {
                        Some(referrer)
                    },
                },
            )
        } else {
            Ok(None)
        },
    }
}

/// What the referrer settles for a relative specifier, given the outcome
/// `base` of parsing the referrer and the outcome `joined` of resolving the
/// specifier against it: a referrer that is no locator is refused with its
/// fault, and else the joined locator is the identity, or its fault the error.
pub open spec fn referrer_settles(
    base: Result<Seq<char>, FaultView>,
    joined: Result<Seq<char>, FaultView>,
) -> Result<Seq<char>, ResolutionErrorView> {
    match base {
        Err(base_fault) => Err(ResolutionErrorView::InvalidBaseUrl(base_fault)),
        Ok(_) => match joined {
            Ok(identity) => Ok(identity),
            Err(join_fault) => Err(ResolutionErrorView::InvalidUrl(join_fault)),
        },
    }
}

/// What resolving `specifier` from `referrer` gives: what the specifier
/// settles on its own, and else what the referrer settles.
pub open spec fn resolve_spec(specifier: Seq<char>, referrer: Seq<char>) -> Result<
    Seq<char>,
    ResolutionErrorView,
> {
    match specifier_settles(specifier, referrer, parsed_locator(specifier)) {
        Ok(Some(identity)) => Ok(identity),
        Ok(None) => referrer_settles(
            parsed_locator(referrer),
            joined_locator(referrer, specifier),
        ),
        Err(e) => Err(e),
    }
}

/// The view of what `settle_specifier` returns.
pub open spec fn settlement_view(r: Result<Option<ModuleIdentity>, ResolutionError>) -> Result<
    Option<Seq<char>>,
    ResolutionErrorView,
> {
    match r {
        Ok(Some(identity)) => Ok(Some(identity@)),
        Ok(None) => Ok(None),
        Err(e) => Err(e@),
    }
}

/// The view of what `resolve` returns.
pub open spec fn resolution_view(r: Result<ModuleIdentity, ResolutionError>) -> Result<
    Seq<char>,
    ResolutionErrorView,
> {
    match r {
        Ok(identity) => Ok(identity@),
        Err(e) => Err(e@),
    }
}

/// The view of what `ModuleIdentity::parse` returns.
pub open spec fn identity_view(r: Result<ModuleIdentity, LocatorFault>) -> Result<
    Seq<char>,
    FaultView,
> {
    match r {
        Ok(identity) => Ok(identity@),
        Err(fault) => Err(fault@),
    }
}

/// The view of what `load` returns: the module, or the identity that was
/// refused.
pub open spec fn load_view(r: Result<ResolvedModule, NotFoundError>) -> Result<
    ResolvedModuleView,
    Seq<char>,
> {
    match r {
        Ok(module) => Ok(module@),
        Err(e) => Err(e.identity@),
    }
}

/// Whether `specifier` begins with `/`, `./` or `../`.
pub fn starts_with_import_prefix(specifier: &str) -> (b: bool)
    ensures
        b == has_import_prefix(specifier@),
{
    let n: usize = specifier.unicode_len();
    if n >= 1 && specifier.get_char(0) == '/' {
        return true;
    }
    if n >= 2 && specifier.get_char(0) == '.' && specifier.get_char(1) == '/' {
        return true;
    }
    n >= 3 && specifier.get_char(0) == '.' && specifier.get_char(1) == '.' && specifier.get_char(2)
        == '/'
}

impl ModuleIdentity {
    /// Reads `input` as an absolute locator.
    pub fn parse(input: &str) -> (r: Result<ModuleIdentity, LocatorFault>)
        ensures
            identity_view(r) == parsed_locator(input@),
    {
        match parse_locator(input) {
            Ok(text) => Ok(ModuleIdentity { text }),
            Err(fault) => Err(fault),
        }
    }

    /// The identity whose canonical text is `text`: the serialisation of a
    /// locator that was parsed elsewhere.
    pub fn from_canonical(text: String) -> (identity: ModuleIdentity)
        ensures
            identity@ == text@,
    {
        ModuleIdentity { text }
    }

    /// The canonical text of the identity.
    pub fn as_str(&self) -> (text: &str)
        ensures
            text@ == self@,
    {
        self.text.as_str()
    }

    /// Whether two identities name the same module.
    pub fn same_as(&self, other: &ModuleIdentity) -> (b: bool)
        ensures
            b == (self@ == other@),
    {
        self.text == other.text
    }

    /// A second handle on the same identity.
    pub fn duplicate(&self) -> (copy: ModuleIdentity)
        ensures
            copy@ == self@,
    {
        ModuleIdentity { text: self.text.clone() }
    }
}

/// Settles what the parse of `specifier` can settle, given its outcome
/// `parsed`: the identity, the refusal, or nothing yet.
pub fn settle_specifier(specifier: &str, referrer: &str, parsed: Result<String, LocatorFault>) -> (r:
    Result<Option<ModuleIdentity>, ResolutionError>)
    ensures
        settlement_view(r) == specifier_settles(specifier@, referrer@, outcome_view(parsed)),
{
    match parsed {
        Ok(text) => Ok(Some(ModuleIdentity { text })),
        Err(fault) => {
            if !fault.relative_without_base {
                Err(ResolutionError::InvalidUrl(fault))
            } else if !starts_with_import_prefix(specifier) {
                let from: Option<String> = if referrer.unicode_len() == 0 {
                    None
                } else {
                    Some(referrer.to_owned())
                };
                Err(
                    ResolutionError::ImportPrefixMissing {
                        specifier: specifier.to_owned(),
                        referrer: from,
                    },
                )
            } else {
                Ok(None)
            }
        },
    }
}

/// Settles a relative specifier, given the outcome `base` of parsing the
/// referrer and the outcome `joined` of resolving the specifier against it.
pub fn settle_against_referrer(
    base: Result<String, LocatorFault>,
    joined: Result<String, LocatorFault>,
) -> (r: Result<ModuleIdentity, ResolutionError>)
    ensures
        resolution_view(r) == referrer_settles(outcome_view(base), outcome_view(joined)),
{
    match base {
        Err(base_fault) => Err(ResolutionError::InvalidBaseUrl(base_fault)),
        Ok(_) => match joined {
            Ok(text) => Ok(ModuleIdentity { text }),
            Err(join_fault) => Err(ResolutionError::InvalidUrl(join_fault)),
        },
    }
}

/// Resolves `specifier` as seen from `referrer`. Resolution is syntax alone:
/// it never asks which modules can be loaded.
pub fn resolve_specifier(specifier: &str, referrer: &str) -> (r: Result<
    ModuleIdentity,
    ResolutionError,
>)
    ensures
        resolution_view(r) == resolve_spec(specifier@, referrer@),
{
    match settle_specifier(specifier, referrer, parse_locator(specifier)) {
        Ok(Some(identity)) => Ok(identity),
        Ok(None) => settle_against_referrer(
            parse_locator(referrer),
            join_locator(referrer, specifier),
        ),
        Err(e) => Err(e),
    }
}

/// The loader: the one module it serves, and under which identity.
#[derive(Debug)]
pub struct MainModuleLoader {
    main: ModuleIdentity,
    source: ProgramSource,
}

/// What a `MainModuleLoader` holds, as mathematical values.
pub struct LoaderView {
    pub main: Seq<char>,
    pub source: ProgramSourceView,
}

impl View for MainModuleLoader {
    type V = LoaderView;

    closed spec fn view(&self) -> LoaderView {
        LoaderView { main: self.main@, source: self.source@ }
    }
}

/// What a loader that serves `loader.main` answers when asked for `identity`.
pub open spec fn load_spec(loader: LoaderView, identity: Seq<char>) -> Result<
    ResolvedModuleView,
    Seq<char>,
> {
    if identity == loader.main {
        Ok(
            ResolvedModuleView {
                code: loader.source.text,
                kind: loader.source.kind,
                module_url_specified: identity,
                module_url_found: loader.main,
            },
        )
    } else {
        Err(identity)
    }
}

/// A loader is well formed when the identity it serves is the one that the
/// well-known specifier parses to.
pub open spec fn loader_wf(loader: LoaderView) -> bool {
    parsed_locator(MAIN_SPECIFIER@) == Ok::<Seq<char>, FaultView>(loader.main)
}

impl MainModuleLoader {
    /// Whether the loader serves the well-known identity.
    pub open spec fn wf(&self) -> bool {
        loader_wf(self@)
    }

    /// Builds the loader for `source`, parsing the well-known specifier once.
    /// It fails only if that specifier is no locator, with the parser's fault.
    pub fn new(source: ProgramSource) -> (r: Result<MainModuleLoader, LocatorFault>)
        ensures
            match r {
                Ok(loader) => loader.wf() && loader@.source == source@,
                Err(fault) => parsed_locator(MAIN_SPECIFIER@) == Err::<Seq<char>, FaultView>(
                    fault@,
                ),
            },
    {
        match ModuleIdentity::parse(MAIN_SPECIFIER) {
            Ok(main) => Ok(MainModuleLoader { main, source }),
            Err(fault) => Err(fault),
        }
    }

    /// The identity that the loader serves.
    pub fn main_identity(&self) -> (main: &ModuleIdentity)
        ensures
            main@ == self@.main,
    {
        &self.main
    }

    /// The program that the loader serves.
    pub fn source(&self) -> (source: &ProgramSource)
        ensures
            source@ == self@.source,
    {
        &self.source
    }

    /// Resolves `specifier` as seen from `referrer`, without regard to what
    /// the loader serves.
    pub fn resolve(&self, specifier: &str, referrer: &str) -> (r: Result<
        ModuleIdentity,
        ResolutionError,
    >)
        ensures
            resolution_view(r) == resolve_spec(specifier@, referrer@),
    {
        resolve_specifier(specifier, referrer)
    }

    /// Hands out the program if `identity` is the one that the loader serves,
    /// and refuses every other identity, naming it.
    pub fn load(&self, identity: &ModuleIdentity) -> (r: Result<ResolvedModule, NotFoundError>)
        ensures
            load_view(r) == load_spec(self@, identity@),
    {
        if identity.same_as(&self.main) {
            Ok(
                ResolvedModule {
                    code: self.source.text.clone(),
                    kind: self.source.kind,
                    module_url_specified: identity.text.clone(),
                    module_url_found: self.main.text.clone(),
                },
            )
        } else {
            Err(NotFoundError { identity: identity.duplicate() })
        }
    }
}

/// The well-known specifier resolves to the identity that the loader serves,
/// from every referrer, and asking the loader for that identity gives the
/// program under the well-known identity.
pub proof fn main_resolves_from_every_referrer(loader: LoaderView, referrer: Seq<char>)
    requires
        loader_wf(loader),
    ensures
        resolve_spec(MAIN_SPECIFIER@, referrer) == Ok::<Seq<char>, ResolutionErrorView>(
            loader.main,
        ),
        load_spec(loader, loader.main) matches Ok(module) && module.module_url_found
            == loader.main && module.code == loader.source.text,
{
}

/// Whatever the surface form of a specifier, absolute or relative: if it
/// resolves to the identity that the loader serves, the module handed out is
/// found under that identity and specified as it was asked for.
pub proof fn resolved_main_is_served(
    loader: LoaderView,
    specifier: Seq<char>,
    referrer: Seq<char>,
)
    requires
        resolve_spec(specifier, referrer) == Ok::<Seq<char>, ResolutionErrorView>(loader.main),
    ensures
        load_spec(loader, resolve_spec(specifier, referrer)->Ok_0) == Ok::<
            ResolvedModuleView,
            Seq<char>,
        >(
            ResolvedModuleView {
                code: loader.source.text,
                kind: loader.source.kind,
                module_url_specified: loader.main,
                module_url_found: loader.main,
            },
        ),
{
}

/// The loader hands out a module for the identity it serves and for no other:
/// every other identity is refused, and the refusal names it.
pub proof fn only_main_is_served(loader: LoaderView, identity: Seq<char>)
    ensures
        load_spec(loader, identity) is Ok <==> identity == loader.main,
        identity != loader.main ==> load_spec(loader, identity) == Err::<
            ResolvedModuleView,
            Seq<char>,
        >(identity),
        load_spec(loader, identity) matches Ok(module) ==> module.module_url_found
            == loader.main,
{
}

/// Two well-formed loaders over the same program are the same loader: they
/// serve the same identity and answer every request alike. So what a request
/// gives depends on the request, the program and the well-known specifier,
/// and on nothing else.
pub proof fn loaders_over_one_program_agree(
    first: LoaderView,
    second: LoaderView,
    identity: Seq<char>,
)
    requires
        loader_wf(first),
        loader_wf(second),
        first.source == second.source,
    ensures
        first == second,
        load_spec(first, identity) == load_spec(second, identity),
{
}

/// A specifier that parses on its own resolves to the same identity from
/// every referrer.
pub proof fn absolute_specifier_ignores_referrer(
    specifier: Seq<char>,
    first: Seq<char>,
    second: Seq<char>,
)
    requires
        parsed_locator(specifier) is Ok,
    ensures
        resolve_spec(specifier, first) == resolve_spec(specifier, second),
        resolve_spec(specifier, first) == Ok::<Seq<char>, ResolutionErrorView>(
            parsed_locator(specifier)->Ok_0,
        ),
{
}

/// A specifier that is malformed, or relative without the import prefix,
/// resolves from no referrer; a malformed one fails with its own fault
/// whatever the referrer is.
pub proof fn invalid_specifier_fails_from_every_referrer(
    specifier: Seq<char>,
    referrer: Seq<char>,
)
    requires
        parsed_locator(specifier) matches Err(fault) && (!fault.relative_without_base
            || !has_import_prefix(specifier)),
    ensures
        resolve_spec(specifier, referrer) is Err,
        !parsed_locator(specifier)->Err_0.relative_without_base ==> resolve_spec(
            specifier,
            referrer,
        ) == Err::<Seq<char>, ResolutionErrorView>(
            ResolutionErrorView::InvalidUrl(parsed_locator(specifier)->Err_0),
        ),
{
}

} // verus!
