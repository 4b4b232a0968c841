//! The plugin contract: the data carried by every lifecycle hook of the
//! build pipeline, and the trait each plugin implements. Every hook method
//! has a specification twin describing what the plugin contributes, so the
//! driver's dispatch contracts can be stated exactly; a plugin need not
//! contribute to a hook (absence and unchanged state are always allowed
//! answers of its specification).

use vstd::prelude::*;

verus! {

use crate::module::ModuleIdentifier;
use crate::vec_map::VecMap;

/// How serious a diagnostic is.
#[derive(Clone, Copy, Debug, PartialEq, Eq, Structural)]
pub enum Severity {
    Error,
    Warn,
}

/// A structured, non-fatal report of a problem met during a build phase.
#[derive(Clone, Debug, PartialEq, Eq)]
pub struct Diagnostic {
    pub severity: Severity,
    pub message: String,
}

/// A fatal plugin error: it aborts the phase that dispatched the hook.
#[derive(Clone, Debug, PartialEq, Eq)]
pub struct Error {
    pub message: String,
}

/// Shared configuration of the whole build, mutable only while plugins run
/// their setup routine.
#[derive(Clone, Debug, PartialEq, Eq)]
pub struct CompilerOptions {
    pub context: String,
    pub bail: bool,
}

/// Kind of module a parser/generator builder is registered for.
#[derive(Clone, Copy, Debug, PartialEq, Eq, Hash, Structural)]
pub enum ModuleType {
    Js,
    JsEsm,
    JsDynamic,
    Css,
    Json,
    Asset,
}

impl ModuleType {
    /// Dense code of the module type, keying the builder registry.
    pub open spec fn spec_code(&self) -> usize {
        match *self {
            ModuleType::Js => 0,
            ModuleType::JsEsm => 1,
            ModuleType::JsDynamic => 2,
            ModuleType::Css => 3,
            ModuleType::Json => 4,
            ModuleType::Asset => 5,
        }
    }

    pub fn code(&self) -> (r: usize)
        ensures
            r == self.spec_code(),
    {
        match *self {
            ModuleType::Js => 0,
            ModuleType::JsEsm => 1,
            ModuleType::JsDynamic => 2,
            ModuleType::Css => 3,
            ModuleType::Json => 4,
            ModuleType::Asset => 5,
        }
    }
}

/// Opaque recipe for building the parser and generator of one module type.
#[derive(Clone, Debug, PartialEq, Eq)]
pub struct ParserAndGeneratorBuilder {
    pub name: String,
}

/// Registry of per-module-type parser/generator builders, keyed by the
/// dense module type code; registering a type again overwrites.
pub type ParserAndGeneratorRegistry = VecMap<ParserAndGeneratorBuilder>;

/// What a plugin's setup routine may register before the configuration is
/// frozen.
pub struct ApplyContext {
    pub registered_parser_and_generator_builder: ParserAndGeneratorRegistry,
}

/// Factory for module resolvers, an opaque collaborator.
#[derive(Clone, Copy, Debug, PartialEq, Eq, Structural)]
pub struct ResolverFactory {}

/// A module resolver, an opaque collaborator.
#[derive(Clone, Copy, Debug, PartialEq, Eq, Structural)]
pub struct Resolver {}

/// A module admitted to the build, as the loader phases see it.
#[derive(Clone, Debug, PartialEq, Eq)]
pub struct NormalModule {
    pub identifier: ModuleIdentifier,
    pub request: String,
}

/// A constructed module travelling through factorization hooks.
pub type BoxModule = Box<NormalModule>;

/// Contents of a read resource.
#[derive(Clone, Debug, PartialEq, Eq)]
pub enum Content {
    Text(String),
    Buffer(Vec<u8>),
}

/// Description of a resource to read or resolve.
#[derive(Clone, Debug, PartialEq, Eq)]
pub struct ResourceData {
    pub resource: String,
    pub scheme: String,
}

/// A piece of generated output.
#[derive(Clone, Debug, PartialEq, Eq)]
pub struct Source {
    pub text: String,
}

/// A loader resolved for a module request.
#[derive(Clone, Debug, PartialEq, Eq)]
pub struct Loader {
    pub request: String,
}

/// A resolved loader as the driver hands it out.
pub type BoxLoader = Box<Loader>;

/// Key of a chunk in the chunk graph.
pub type ChunkUkey = usize;

/// Digest map per source type produced by content hashing, keyed by the
/// dense source type code.
pub type ChunkContentHash = VecMap<String>;

/// Kind of generated source content hashing distinguishes.
#[derive(Clone, Copy, Debug, PartialEq, Eq, Hash, Structural)]
pub enum SourceType {
    JavaScript,
    Css,
    Asset,
}

impl SourceType {
    /// Dense code of the source type, keying the content hash map.
    pub open spec fn spec_code(&self) -> usize {
        match *self {
            SourceType::JavaScript => 0,
            SourceType::Css => 1,
            SourceType::Asset => 2,
        }
    }

    pub fn code(&self) -> (r: usize)
        ensures
            r == self.spec_code(),
    {
        match *self {
            SourceType::JavaScript => 0,
            SourceType::Css => 1,
            SourceType::Asset => 2,
        }
    }
}

/// The shared mutable state of one build that optimization and emission
/// phases work on.
#[derive(Clone, Debug, PartialEq, Eq)]
pub struct Compilation {
    pub assets: Vec<RenderManifestEntry>,
    pub hash: Option<String>,
}

/// Summary of a finished build handed to the `done` hook.
#[derive(Clone, Debug, PartialEq, Eq)]
pub struct Stats {
    pub hash: Option<String>,
}

/// One file a plugin contributes to the render manifest.
#[derive(Clone, Debug, PartialEq, Eq)]
pub struct RenderManifestEntry {
    pub filename: String,
    pub source: Source,
}

/// Aggregate result of the render-manifest hook: every plugin's assets and
/// the diagnostics they reported alongside.
#[derive(Clone, Debug, PartialEq, Eq)]
pub struct RenderManifestOutput {
    pub assets: Vec<RenderManifestEntry>,
    pub diagnostics: Vec<Diagnostic>,
}

#[derive(Clone, Copy, Debug, PartialEq, Eq, Structural)]
pub struct ContentHashArgs {
    pub chunk: ChunkUkey,
}

#[derive(Clone, Copy, Debug, PartialEq, Eq, Structural)]
pub struct ChunkHashArgs {
    pub chunk: ChunkUkey,
    pub hash: u64,
}

#[derive(Clone, Copy, Debug, PartialEq, Eq, Structural)]
pub struct RenderManifestArgs {
    pub chunk: ChunkUkey,
}

#[derive(Clone, Debug, PartialEq, Eq)]
pub struct RenderChunkArgs {
    pub chunk: ChunkUkey,
    pub source: Source,
}

#[derive(Clone, Debug, PartialEq, Eq)]
pub struct RenderArgs {
    pub chunk: ChunkUkey,
    pub source: Source,
}

#[derive(Clone, Debug, PartialEq, Eq)]
pub struct RenderStartupArgs {
    pub chunk: ChunkUkey,
    pub module: ModuleIdentifier,
    pub source: Source,
}

#[derive(Clone, Copy, Debug, PartialEq, Eq, Structural)]
pub struct JsChunkHashArgs {
    pub chunk: ChunkUkey,
    pub hash: u64,
}

#[derive(Clone, Debug, PartialEq, Eq)]
pub struct RenderModuleContentArgs {
    pub module: ModuleIdentifier,
    pub module_source: Source,
}

#[derive(Clone, Debug, PartialEq, Eq)]
pub struct FactorizeArgs {
    pub context: String,
    pub request: String,
}

#[derive(Clone, Debug, PartialEq, Eq)]
pub struct NormalModuleCreateData {
    pub context: String,
    pub raw_request: String,
}

#[derive(Clone, Debug, PartialEq, Eq)]
pub struct NormalModuleAfterResolveArgs {
    pub request: String,
    pub context: String,
}

#[derive(Clone, Debug, PartialEq, Eq)]
pub struct BeforeResolveArgs {
    pub request: String,
    pub context: String,
}

#[derive(Clone, Copy, Debug, PartialEq, Eq, Structural)]
pub struct AdditionalChunkRuntimeRequirementsArgs {
    pub chunk: ChunkUkey,
    pub runtime_requirements: u64,
}

#[derive(Clone, Copy, Debug, PartialEq, Eq, Structural)]
pub struct AdditionalModuleRequirementsArgs {
    pub module: ModuleIdentifier,
    pub runtime_requirements: u64,
}

#[derive(Clone, Copy, Debug, PartialEq, Eq, Structural)]
pub struct RuntimeRequirementsInTreeArgs {
    pub chunk: ChunkUkey,
    pub runtime_requirements: u64,
}

#[derive(Clone, Debug, PartialEq, Eq)]
pub struct AssetEmittedArgs {
    pub filename: String,
}

/// State of one loader run a plugin may adjust.
#[derive(Clone, Debug, PartialEq, Eq)]
pub struct LoaderContext {
    pub resource: String,
    pub content: Option<Content>,
}

/// View of an optional borrowed string.
pub open spec fn opt_str_view(o: Option<&str>) -> Option<Seq<char>> {
    match o {
        Option::Some(s) => Option::Some(s@),
        Option::None => Option::None,
    }
}

/// One plugin of the build pipeline. Each hook has a specification twin
/// (`spec_*`) stating what this plugin answers and how it transforms the
/// state it is handed; the executable hook must behave as its twin says.
/// Neutral behaviour — contributing nothing and leaving state unchanged —
/// is expressed by a twin that returns absence and echoes its state.
pub trait Plugin: Sized {
    /// Display name, for tracing.
    fn name(&self) -> &'static str;

    /// Setup: what this plugin registers and how it rewrites the shared
    /// configuration before it is frozen.
    spec fn spec_apply(
        &self,
        registry: Seq<Option<ParserAndGeneratorBuilder>>,
        options: CompilerOptions,
    ) -> Result<(Seq<Option<ParserAndGeneratorBuilder>>, CompilerOptions), Error>;

    fn apply(&self, ctx: &mut ApplyContext, options: &mut CompilerOptions) -> (r: Result<
        (),
        Error,
    >)
        ensures
            match self.spec_apply(
                old(ctx).registered_parser_and_generator_builder@,
                *old(options),
            ) {
                Result::Ok((reg2, o2)) => r == Result::<(), Error>::Ok(()) && final(ctx).registered_parser_and_generator_builder@ == reg2 && *final(options) == o2,
                Result::Err(e) => r == Result::<(), Error>::Err(e),
            },
    ;

    spec fn spec_read_resource(&self, resource_data: ResourceData) -> Result<
        Option<Content>,
        Error,
    >;

    fn read_resource(&self, resource_data: &ResourceData) -> (r: Result<Option<Content>, Error>)
        ensures
            r == self.spec_read_resource(*resource_data),
    ;

    spec fn spec_module_asset(&self, module: ModuleIdentifier, asset_name: Seq<char>) -> Result<
        (),
        Error,
    >;

    fn module_asset(&self, module: ModuleIdentifier, asset_name: &str) -> (r: Result<(), Error>)
        ensures
            r == self.spec_module_asset(module, asset_name@),
    ;

    spec fn spec_content_hash(&self, args: ContentHashArgs) -> Result<
        Option<(SourceType, String)>,
        Error,
    >;

    fn content_hash(&self, args: &ContentHashArgs) -> (r: Result<
        Option<(SourceType, String)>,
        Error,
    >)
        ensures
            r == self.spec_content_hash(*args),
    ;

    spec fn spec_chunk_hash(&self, args: ChunkHashArgs) -> Result<ChunkHashArgs, Error>;

    fn chunk_hash(&self, args: &mut ChunkHashArgs) -> (r: Result<(), Error>)
        ensures
            match self.spec_chunk_hash(*old(args)) {
                Result::Ok(a2) => r == Result::<(), Error>::Ok(()) && *final(args) == a2,
                Result::Err(e) => r == Result::<(), Error>::Err(e),
            },
    ;

    spec fn spec_render_manifest(&self, args: RenderManifestArgs) -> Result<
        (Vec<RenderManifestEntry>, Vec<Diagnostic>),
        Error,
    >;

    fn render_manifest(&self, args: RenderManifestArgs) -> (r: Result<
        (Vec<RenderManifestEntry>, Vec<Diagnostic>),
        Error,
    >)
        ensures
            r == self.spec_render_manifest(args),
    ;

    spec fn spec_render_chunk(&self, args: RenderChunkArgs) -> Result<Option<Source>, Error>;

    fn render_chunk(&self, args: &RenderChunkArgs) -> (r: Result<Option<Source>, Error>)
        ensures
            r == self.spec_render_chunk(*args),
    ;

    spec fn spec_render(&self, args: RenderArgs) -> Result<Option<Source>, Error>;

    fn render(&self, args: &RenderArgs) -> (r: Result<Option<Source>, Error>)
        ensures
            r == self.spec_render(*args),
    ;

    spec fn spec_render_startup(&self, args: RenderStartupArgs) -> Result<Option<Source>, Error>;

    fn render_startup(&self, args: &RenderStartupArgs) -> (r: Result<Option<Source>, Error>)
        ensures
            r == self.spec_render_startup(*args),
    ;

    spec fn spec_js_chunk_hash(&self, args: JsChunkHashArgs) -> Result<JsChunkHashArgs, Error>;

    fn js_chunk_hash(&self, args: &mut JsChunkHashArgs) -> (r: Result<(), Error>)
        ensures
            match self.spec_js_chunk_hash(*old(args)) {
                Result::Ok(a2) => r == Result::<(), Error>::Ok(()) && *final(args) == a2,
                Result::Err(e) => r == Result::<(), Error>::Err(e),
            },
    ;

    spec fn spec_render_module_content(&self, args: RenderModuleContentArgs) -> Result<
        RenderModuleContentArgs,
        Error,
    >;

    fn render_module_content(&self, args: RenderModuleContentArgs) -> (r: Result<
        RenderModuleContentArgs,
        Error,
    >)
        ensures
            r == self.spec_render_module_content(args),
    ;

    spec fn spec_factorize(&self, args: FactorizeArgs) -> Result<
        (FactorizeArgs, Option<BoxModule>),
        Error,
    >;

    fn factorize(&self, args: &mut FactorizeArgs) -> (r: Result<Option<BoxModule>, Error>)
        ensures
            match self.spec_factorize(*old(args)) {
                Result::Ok((a2, m)) => r == Result::<Option<BoxModule>, Error>::Ok(m) && *final(args) == a2,
                Result::Err(e) => r == Result::<Option<BoxModule>, Error>::Err(e),
            },
    ;

    spec fn spec_normal_module_factory_create_module(&self, args: NormalModuleCreateData) -> Result<
        (NormalModuleCreateData, Option<BoxModule>),
        Error,
    >;

    fn normal_module_factory_create_module(&self, args: &mut NormalModuleCreateData) -> (r: Result<
        Option<BoxModule>,
        Error,
    >)
        ensures
            match self.spec_normal_module_factory_create_module(*old(args)) {
                Result::Ok((a2, m)) => r == Result::<Option<BoxModule>, Error>::Ok(m) && *final(args) == a2,
                Result::Err(e) => r == Result::<Option<BoxModule>, Error>::Err(e),
            },
    ;

    spec fn spec_normal_module_factory_module(
        &self,
        module: BoxModule,
        args: NormalModuleCreateData,
    ) -> Result<(BoxModule, NormalModuleCreateData), Error>;

    fn normal_module_factory_module(
        &self,
        module: BoxModule,
        args: &mut NormalModuleCreateData,
    ) -> (r: Result<BoxModule, Error>)
        ensures
            match self.spec_normal_module_factory_module(module, *old(args)) {
                Result::Ok((m2, a2)) => r == Result::<BoxModule, Error>::Ok(m2) && *final(args)
                    == a2,
                Result::Err(e) => r == Result::<BoxModule, Error>::Err(e),
            },
    ;

    spec fn spec_normal_module_loader(
        &self,
        loader_context: LoaderContext,
        module: NormalModule,
    ) -> Result<LoaderContext, Error>;

    fn normal_module_loader(
        &self,
        loader_context: &mut LoaderContext,
        module: &NormalModule,
    ) -> (r: Result<(), Error>)
        ensures
            match self.spec_normal_module_loader(*old(loader_context), *module) {
                Result::Ok(c2) => r == Result::<(), Error>::Ok(()) && *final(loader_context) == c2,
                Result::Err(e) => r == Result::<(), Error>::Err(e),
            },
    ;

    spec fn spec_after_resolve(&self, args: NormalModuleAfterResolveArgs) -> Result<
        (NormalModuleAfterResolveArgs, Option<bool>),
        Error,
    >;

    fn after_resolve(&self, args: &mut NormalModuleAfterResolveArgs) -> (r: Result<
        Option<bool>,
        Error,
    >)
        ensures
            match self.spec_after_resolve(*old(args)) {
                Result::Ok((a2, d)) => r == Result::<Option<bool>, Error>::Ok(d) && *final(args)
                    == a2,
                Result::Err(e) => r == Result::<Option<bool>, Error>::Err(e),
            },
    ;

    spec fn spec_context_module_before_resolve(&self, args: BeforeResolveArgs) -> Result<
        (BeforeResolveArgs, Option<bool>),
        Error,
    >;

    fn context_module_before_resolve(&self, args: &mut BeforeResolveArgs) -> (r: Result<
        Option<bool>,
        Error,
    >)
        ensures
            match self.spec_context_module_before_resolve(*old(args)) {
                Result::Ok((a2, d)) => r == Result::<Option<bool>, Error>::Ok(d) && *final(args)
                    == a2,
                Result::Err(e) => r == Result::<Option<bool>, Error>::Err(e),
            },
    ;

    spec fn spec_context_module_after_resolve(&self, args: NormalModuleAfterResolveArgs) -> Result<
        (NormalModuleAfterResolveArgs, Option<bool>),
        Error,
    >;

    fn context_module_after_resolve(&self, args: &mut NormalModuleAfterResolveArgs) -> (r: Result<
        Option<bool>,
        Error,
    >)
        ensures
            match self.spec_context_module_after_resolve(*old(args)) {
                Result::Ok((a2, d)) => r == Result::<Option<bool>, Error>::Ok(d) && *final(args)
                    == a2,
                Result::Err(e) => r == Result::<Option<bool>, Error>::Err(e),
            },
    ;

    /// Scheme resolution: the boolean signals "stop the fold here".
    spec fn spec_normal_module_factory_resolve_for_scheme(&self, args: ResourceData) -> Result<
        (ResourceData, bool),
        Error,
    >;

    fn normal_module_factory_resolve_for_scheme(&self, args: ResourceData) -> (r: Result<
        (ResourceData, bool),
        Error,
    >)
        ensures
            r == self.spec_normal_module_factory_resolve_for_scheme(args),
    ;

    spec fn spec_additional_chunk_runtime_requirements(
        &self,
        args: AdditionalChunkRuntimeRequirementsArgs,
    ) -> Result<AdditionalChunkRuntimeRequirementsArgs, Error>;

    fn additional_chunk_runtime_requirements(
        &self,
        args: &mut AdditionalChunkRuntimeRequirementsArgs,
    ) -> (r: Result<(), Error>)
        ensures
            match self.spec_additional_chunk_runtime_requirements(*old(args)) {
                Result::Ok(a2) => r == Result::<(), Error>::Ok(()) && *final(args) == a2,
                Result::Err(e) => r == Result::<(), Error>::Err(e),
            },
    ;

    spec fn spec_additional_tree_runtime_requirements(
        &self,
        args: AdditionalChunkRuntimeRequirementsArgs,
    ) -> Result<AdditionalChunkRuntimeRequirementsArgs, Error>;

    fn additional_tree_runtime_requirements(
        &self,
        args: &mut AdditionalChunkRuntimeRequirementsArgs,
    ) -> (r: Result<(), Error>)
        ensures
            match self.spec_additional_tree_runtime_requirements(*old(args)) {
                Result::Ok(a2) => r == Result::<(), Error>::Ok(()) && *final(args) == a2,
                Result::Err(e) => r == Result::<(), Error>::Err(e),
            },
    ;

    spec fn spec_runtime_requirements_in_module(
        &self,
        args: AdditionalModuleRequirementsArgs,
    ) -> Result<AdditionalModuleRequirementsArgs, Error>;

    fn runtime_requirements_in_module(&self, args: &mut AdditionalModuleRequirementsArgs) -> (r:
        Result<(), Error>)
        ensures
            match self.spec_runtime_requirements_in_module(*old(args)) {
                Result::Ok(a2) => r == Result::<(), Error>::Ok(()) && *final(args) == a2,
                Result::Err(e) => r == Result::<(), Error>::Err(e),
            },
    ;

    spec fn spec_runtime_requirements_in_tree(&self, args: RuntimeRequirementsInTreeArgs) -> Result<
        RuntimeRequirementsInTreeArgs,
        Error,
    >;

    fn runtime_requirements_in_tree(&self, args: &mut RuntimeRequirementsInTreeArgs) -> (r: Result<
        (),
        Error,
    >)
        ensures
            match self.spec_runtime_requirements_in_tree(*old(args)) {
                Result::Ok(a2) => r == Result::<(), Error>::Ok(()) && *final(args) == a2,
                Result::Err(e) => r == Result::<(), Error>::Err(e),
            },
    ;

    spec fn spec_after_process_assets(&self, compilation: Compilation) -> Result<
        Compilation,
        Error,
    >;

    fn after_process_assets(&self, compilation: &mut Compilation) -> (r: Result<(), Error>)
        ensures
            match self.spec_after_process_assets(*old(compilation)) {
                Result::Ok(c2) => r == Result::<(), Error>::Ok(()) && *final(compilation) == c2,
                Result::Err(e) => r == Result::<(), Error>::Err(e),
            },
    ;

    spec fn spec_done(&self, stats: Stats) -> Result<Stats, Error>;

    fn done(&self, stats: &mut Stats) -> (r: Result<(), Error>)
        ensures
            match self.spec_done(*old(stats)) {
                Result::Ok(s2) => r == Result::<(), Error>::Ok(()) && *final(stats) == s2,
                Result::Err(e) => r == Result::<(), Error>::Err(e),
            },
    ;

    spec fn spec_optimize_chunks(&self, compilation: Compilation) -> Result<Compilation, Error>;

    fn optimize_chunks(&self, compilation: &mut Compilation) -> (r: Result<(), Error>)
        ensures
            match self.spec_optimize_chunks(*old(compilation)) {
                Result::Ok(c2) => r == Result::<(), Error>::Ok(()) && *final(compilation) == c2,
                Result::Err(e) => r == Result::<(), Error>::Err(e),
            },
    ;

    spec fn spec_optimize_modules(&self, compilation: Compilation) -> Result<Compilation, Error>;

    fn optimize_modules(&self, compilation: &mut Compilation) -> (r: Result<(), Error>)
        ensures
            match self.spec_optimize_modules(*old(compilation)) {
                Result::Ok(c2) => r == Result::<(), Error>::Ok(()) && *final(compilation) == c2,
                Result::Err(e) => r == Result::<(), Error>::Err(e),
            },
    ;

    spec fn spec_after_optimize_modules(&self, compilation: Compilation) -> Result<
        Compilation,
        Error,
    >;

    fn after_optimize_modules(&self, compilation: &mut Compilation) -> (r: Result<(), Error>)
        ensures
            match self.spec_after_optimize_modules(*old(compilation)) {
                Result::Ok(c2) => r == Result::<(), Error>::Ok(()) && *final(compilation) == c2,
                Result::Err(e) => r == Result::<(), Error>::Err(e),
            },
    ;

    spec fn spec_optimize_dependencies(&self, compilation: Compilation) -> Result<
        (Compilation, Option<()>),
        Error,
    >;

    fn optimize_dependencies(&self, compilation: &mut Compilation) -> (r: Result<
        Option<()>,
        Error,
    >)
        ensures
            match self.spec_optimize_dependencies(*old(compilation)) {
                Result::Ok((c2, d)) => r == Result::<Option<()>, Error>::Ok(d) && *final(compilation) == c2,
                Result::Err(e) => r == Result::<Option<()>, Error>::Err(e),
            },
    ;

    spec fn spec_optimize_code_generation(&self, compilation: Compilation) -> Result<
        (Compilation, Option<()>),
        Error,
    >;

    fn optimize_code_generation(&self, compilation: &mut Compilation) -> (r: Result<
        Option<()>,
        Error,
    >)
        ensures
            match self.spec_optimize_code_generation(*old(compilation)) {
                Result::Ok((c2, d)) => r == Result::<Option<()>, Error>::Ok(d) && *final(compilation) == c2,
                Result::Err(e) => r == Result::<Option<()>, Error>::Err(e),
            },
    ;

    spec fn spec_optimize_tree(&self, compilation: Compilation) -> Result<Compilation, Error>;

    fn optimize_tree(&self, compilation: &mut Compilation) -> (r: Result<(), Error>)
        ensures
            match self.spec_optimize_tree(*old(compilation)) {
                Result::Ok(c2) => r == Result::<(), Error>::Ok(()) && *final(compilation) == c2,
                Result::Err(e) => r == Result::<(), Error>::Err(e),
            },
    ;

    spec fn spec_optimize_chunk_modules(&self, compilation: Compilation) -> Result<
        Compilation,
        Error,
    >;

    fn optimize_chunk_modules(&self, compilation: &mut Compilation) -> (r: Result<(), Error>)
        ensures
            match self.spec_optimize_chunk_modules(*old(compilation)) {
                Result::Ok(c2) => r == Result::<(), Error>::Ok(()) && *final(compilation) == c2,
                Result::Err(e) => r == Result::<(), Error>::Err(e),
            },
    ;

    spec fn spec_resolve_loader(
        &self,
        compiler_options: CompilerOptions,
        context: Seq<char>,
        resolver: Resolver,
        loader_request: Seq<char>,
        loader_options: Option<Seq<char>>,
    ) -> Result<Option<BoxLoader>, Error>;

    fn resolve_loader(
        &self,
        compiler_options: &CompilerOptions,
        context: &str,
        resolver: &Resolver,
        loader_request: &str,
        loader_options: Option<&str>,
    ) -> (r: Result<Option<BoxLoader>, Error>)
        ensures
            r == self.spec_resolve_loader(
                *compiler_options,
                context@,
                *resolver,
                loader_request@,
                opt_str_view(loader_options),
            ),
    ;

    spec fn spec_before_loaders(&self, module: NormalModule) -> Result<NormalModule, Error>;

    fn before_loaders(&self, module: &mut NormalModule) -> (r: Result<(), Error>)
        ensures
            match self.spec_before_loaders(*old(module)) {
                Result::Ok(m2) => r == Result::<(), Error>::Ok(()) && *final(module) == m2,
                Result::Err(e) => r == Result::<(), Error>::Err(e),
            },
    ;

    spec fn spec_module_ids(&self, compilation: Compilation) -> Result<Compilation, Error>;

    fn module_ids(&self, compilation: &mut Compilation) -> (r: Result<(), Error>)
        ensures
            match self.spec_module_ids(*old(compilation)) {
                Result::Ok(c2) => r == Result::<(), Error>::Ok(()) && *final(compilation) == c2,
                Result::Err(e) => r == Result::<(), Error>::Err(e),
            },
    ;

    spec fn spec_chunk_ids(&self, compilation: Compilation) -> Result<Compilation, Error>;

    fn chunk_ids(&self, compilation: &mut Compilation) -> (r: Result<(), Error>)
        ensures
            match self.spec_chunk_ids(*old(compilation)) {
                Result::Ok(c2) => r == Result::<(), Error>::Ok(()) && *final(compilation) == c2,
                Result::Err(e) => r == Result::<(), Error>::Err(e),
            },
    ;

    spec fn spec_emit(&self, compilation: Compilation) -> Result<Compilation, Error>;

    fn emit(&self, compilation: &mut Compilation) -> (r: Result<(), Error>)
        ensures
            match self.spec_emit(*old(compilation)) {
                Result::Ok(c2) => r == Result::<(), Error>::Ok(()) && *final(compilation) == c2,
                Result::Err(e) => r == Result::<(), Error>::Err(e),
            },
    ;

    spec fn spec_asset_emitted(&self, args: AssetEmittedArgs) -> Result<(), Error>;

    fn asset_emitted(&self, args: &AssetEmittedArgs) -> (r: Result<(), Error>)
        ensures
            r == self.spec_asset_emitted(*args),
    ;

    spec fn spec_after_emit(&self, compilation: Compilation) -> Result<Compilation, Error>;

    fn after_emit(&self, compilation: &mut Compilation) -> (r: Result<(), Error>)
        ensures
            match self.spec_after_emit(*old(compilation)) {
                Result::Ok(c2) => r == Result::<(), Error>::Ok(()) && *final(compilation) == c2,
                Result::Err(e) => r == Result::<(), Error>::Err(e),
            },
    ;

    spec fn spec_seal(&self, compilation: Compilation) -> Result<Compilation, Error>;

    fn seal(&self, compilation: &mut Compilation) -> (r: Result<(), Error>)
        ensures
            match self.spec_seal(*old(compilation)) {
                Result::Ok(c2) => r == Result::<(), Error>::Ok(()) && *final(compilation) == c2,
                Result::Err(e) => r == Result::<(), Error>::Err(e),
            },
    ;
}

} // verus!
