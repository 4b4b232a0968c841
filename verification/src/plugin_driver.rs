//! The plugin hook driver: owns the ordered plugin list and dispatches
//! every lifecycle hook of the build under one of the four disciplines,
//! collecting diagnostics centrally. Dispatch is always sequential in
//! registration order; the contracts of the methods below state the
//! outcome as the corresponding discipline applied to the plugins'
//! specification twins.

use vstd::prelude::*;

verus! {

use crate::dispatch::dispatch_collect;
use crate::dispatch::dispatch_fold;
use crate::dispatch::dispatch_fold_until;
use crate::dispatch::dispatch_first_wins;
use crate::dispatch::dispatch_first_wins_mut;
use crate::dispatch::lemma_skip_step;
use crate::module::ModuleIdentifier;
use crate::plugin::AdditionalChunkRuntimeRequirementsArgs;
use crate::plugin::AdditionalModuleRequirementsArgs;
use crate::plugin::ApplyContext;
use crate::plugin::AssetEmittedArgs;
use crate::plugin::BeforeResolveArgs;
use crate::plugin::BoxLoader;
use crate::plugin::BoxModule;
use crate::plugin::ChunkContentHash;
use crate::plugin::ChunkHashArgs;
use crate::plugin::ChunkUkey;
use crate::plugin::Compilation;
use crate::plugin::CompilerOptions;
use crate::plugin::Content;
use crate::plugin::ContentHashArgs;
use crate::plugin::Diagnostic;
use crate::plugin::Error;
use crate::plugin::FactorizeArgs;
use crate::plugin::JsChunkHashArgs;
use crate::plugin::LoaderContext;
use crate::plugin::NormalModule;
use crate::plugin::NormalModuleAfterResolveArgs;
use crate::plugin::NormalModuleCreateData;
use crate::plugin::opt_str_view;
use crate::plugin::ParserAndGeneratorBuilder;
use crate::plugin::ParserAndGeneratorRegistry;
use crate::plugin::Plugin;
use crate::plugin::RenderArgs;
use crate::plugin::RenderChunkArgs;
use crate::plugin::RenderManifestArgs;
use crate::plugin::RenderManifestEntry;
use crate::plugin::RenderManifestOutput;
use crate::plugin::RenderModuleContentArgs;
use crate::plugin::RenderStartupArgs;
use crate::plugin::Resolver;
use crate::plugin::ResolverFactory;
use crate::plugin::ResourceData;
use crate::plugin::RuntimeRequirementsInTreeArgs;
use crate::plugin::Source;
use crate::plugin::SourceType;
use crate::plugin::Stats;
use crate::vec_map::VecMap;

/// Specification step of the setup dispatch: one plugin's rewrite of the
/// builder registry and the shared configuration.
pub open spec fn apply_hook<P: Plugin>() -> spec_fn(
    P,
    (Seq<Option<ParserAndGeneratorBuilder>>, CompilerOptions),
) -> Result<(Seq<Option<ParserAndGeneratorBuilder>>, CompilerOptions), Error> {
    |p: P, st: (Seq<Option<ParserAndGeneratorBuilder>>, CompilerOptions)|
        p.spec_apply(st.0, st.1)
}

/// Specification step of the `read_resource` dispatch.
pub open spec fn read_resource_hook<P: Plugin>(resource_data: ResourceData) -> spec_fn(P) -> Result<
    Option<Content>,
    Error,
> {
    |p: P| p.spec_read_resource(resource_data)
}

/// Specification step of the `chunk_hash` dispatch.
pub open spec fn chunk_hash_hook<P: Plugin>() -> spec_fn(P, ChunkHashArgs) -> Result<
    ChunkHashArgs,
    Error,
> {
    |p: P, a: ChunkHashArgs| p.spec_chunk_hash(a)
}

/// Specification step of the `render_chunk` dispatch.
pub open spec fn render_chunk_hook<P: Plugin>(args: RenderChunkArgs) -> spec_fn(P) -> Result<Option<Source>, Error> {
    |p: P| p.spec_render_chunk(args)
}

/// Specification step of the `render` dispatch.
pub open spec fn render_hook<P: Plugin>(args: RenderArgs) -> spec_fn(P) -> Result<Option<Source>, Error> {
    |p: P| p.spec_render(args)
}

/// Specification step of the `factorize` dispatch.
pub open spec fn factorize_hook<P: Plugin>() -> spec_fn(P, FactorizeArgs) -> Result<(FactorizeArgs, Option<BoxModule>), Error> {
    |p: P, a: FactorizeArgs| p.spec_factorize(a)
}

/// Specification step of the `normal_module_factory_create_module` dispatch.
pub open spec fn normal_module_factory_create_module_hook<P: Plugin>() -> spec_fn(P, NormalModuleCreateData) -> Result<(NormalModuleCreateData, Option<BoxModule>), Error> {
    |p: P, a: NormalModuleCreateData| p.spec_normal_module_factory_create_module(a)
}

/// Specification step of the `after_resolve` dispatch.
pub open spec fn after_resolve_hook<P: Plugin>() -> spec_fn(P, NormalModuleAfterResolveArgs) -> Result<(NormalModuleAfterResolveArgs, Option<bool>), Error> {
    |p: P, a: NormalModuleAfterResolveArgs| p.spec_after_resolve(a)
}

/// Specification step of the `context_module_before_resolve` dispatch.
pub open spec fn context_module_before_resolve_hook<P: Plugin>() -> spec_fn(P, BeforeResolveArgs) -> Result<(BeforeResolveArgs, Option<bool>), Error> {
    |p: P, a: BeforeResolveArgs| p.spec_context_module_before_resolve(a)
}

/// Specification step of the `context_module_after_resolve` dispatch.
pub open spec fn context_module_after_resolve_hook<P: Plugin>() -> spec_fn(P, NormalModuleAfterResolveArgs) -> Result<(NormalModuleAfterResolveArgs, Option<bool>), Error> {
    |p: P, a: NormalModuleAfterResolveArgs| p.spec_context_module_after_resolve(a)
}

/// Specification step of the `optimize_dependencies` dispatch.
pub open spec fn optimize_dependencies_hook<P: Plugin>() -> spec_fn(P, Compilation) -> Result<(Compilation, Option<()>), Error> {
    |p: P, a: Compilation| p.spec_optimize_dependencies(a)
}

/// Specification step of the `optimize_code_generation` dispatch.
pub open spec fn optimize_code_generation_hook<P: Plugin>() -> spec_fn(P, Compilation) -> Result<(Compilation, Option<()>), Error> {
    |p: P, a: Compilation| p.spec_optimize_code_generation(a)
}

/// Specification step of the `js_chunk_hash` dispatch.
pub open spec fn js_chunk_hash_hook<P: Plugin>() -> spec_fn(P, JsChunkHashArgs) -> Result<JsChunkHashArgs, Error> {
    |p: P, a: JsChunkHashArgs| p.spec_js_chunk_hash(a)
}

/// Specification step of the `additional_chunk_runtime_requirements` dispatch.
pub open spec fn additional_chunk_runtime_requirements_hook<P: Plugin>() -> spec_fn(P, AdditionalChunkRuntimeRequirementsArgs) -> Result<AdditionalChunkRuntimeRequirementsArgs, Error> {
    |p: P, a: AdditionalChunkRuntimeRequirementsArgs| p.spec_additional_chunk_runtime_requirements(a)
}

/// Specification step of the `additional_tree_runtime_requirements` dispatch.
pub open spec fn additional_tree_runtime_requirements_hook<P: Plugin>() -> spec_fn(P, AdditionalChunkRuntimeRequirementsArgs) -> Result<AdditionalChunkRuntimeRequirementsArgs, Error> {
    |p: P, a: AdditionalChunkRuntimeRequirementsArgs| p.spec_additional_tree_runtime_requirements(a)
}

/// Specification step of the `runtime_requirements_in_module` dispatch.
pub open spec fn runtime_requirements_in_module_hook<P: Plugin>() -> spec_fn(P, AdditionalModuleRequirementsArgs) -> Result<AdditionalModuleRequirementsArgs, Error> {
    |p: P, a: AdditionalModuleRequirementsArgs| p.spec_runtime_requirements_in_module(a)
}

/// Specification step of the `runtime_requirements_in_tree` dispatch.
pub open spec fn runtime_requirements_in_tree_hook<P: Plugin>() -> spec_fn(P, RuntimeRequirementsInTreeArgs) -> Result<RuntimeRequirementsInTreeArgs, Error> {
    |p: P, a: RuntimeRequirementsInTreeArgs| p.spec_runtime_requirements_in_tree(a)
}

/// Specification step of the `after_process_assets` dispatch.
pub open spec fn after_process_assets_hook<P: Plugin>() -> spec_fn(P, Compilation) -> Result<Compilation, Error> {
    |p: P, a: Compilation| p.spec_after_process_assets(a)
}

/// Specification step of the `done` dispatch.
pub open spec fn done_hook<P: Plugin>() -> spec_fn(P, Stats) -> Result<Stats, Error> {
    |p: P, a: Stats| p.spec_done(a)
}

/// Specification step of the `optimize_chunks` dispatch.
pub open spec fn optimize_chunks_hook<P: Plugin>() -> spec_fn(P, Compilation) -> Result<Compilation, Error> {
    |p: P, a: Compilation| p.spec_optimize_chunks(a)
}

/// Specification step of the `optimize_modules` dispatch.
pub open spec fn optimize_modules_hook<P: Plugin>() -> spec_fn(P, Compilation) -> Result<Compilation, Error> {
    |p: P, a: Compilation| p.spec_optimize_modules(a)
}

/// Specification step of the `after_optimize_modules` dispatch.
pub open spec fn after_optimize_modules_hook<P: Plugin>() -> spec_fn(P, Compilation) -> Result<Compilation, Error> {
    |p: P, a: Compilation| p.spec_after_optimize_modules(a)
}

/// Specification step of the `optimize_tree` dispatch.
pub open spec fn optimize_tree_hook<P: Plugin>() -> spec_fn(P, Compilation) -> Result<Compilation, Error> {
    |p: P, a: Compilation| p.spec_optimize_tree(a)
}

/// Specification step of the `optimize_chunk_modules` dispatch.
pub open spec fn optimize_chunk_modules_hook<P: Plugin>() -> spec_fn(P, Compilation) -> Result<Compilation, Error> {
    |p: P, a: Compilation| p.spec_optimize_chunk_modules(a)
}

/// Specification step of the `before_loaders` dispatch.
pub open spec fn before_loaders_hook<P: Plugin>() -> spec_fn(P, NormalModule) -> Result<NormalModule, Error> {
    |p: P, a: NormalModule| p.spec_before_loaders(a)
}

/// Specification step of the `module_ids` dispatch.
pub open spec fn module_ids_hook<P: Plugin>() -> spec_fn(P, Compilation) -> Result<Compilation, Error> {
    |p: P, a: Compilation| p.spec_module_ids(a)
}

/// Specification step of the `chunk_ids` dispatch.
pub open spec fn chunk_ids_hook<P: Plugin>() -> spec_fn(P, Compilation) -> Result<Compilation, Error> {
    |p: P, a: Compilation| p.spec_chunk_ids(a)
}

/// Specification step of the `emit` dispatch.
pub open spec fn emit_hook<P: Plugin>() -> spec_fn(P, Compilation) -> Result<Compilation, Error> {
    |p: P, a: Compilation| p.spec_emit(a)
}

/// Specification step of the `after_emit` dispatch.
pub open spec fn after_emit_hook<P: Plugin>() -> spec_fn(P, Compilation) -> Result<Compilation, Error> {
    |p: P, a: Compilation| p.spec_after_emit(a)
}

/// Specification step of the `seal` dispatch.
pub open spec fn seal_hook<P: Plugin>() -> spec_fn(P, Compilation) -> Result<Compilation, Error> {
    |p: P, a: Compilation| p.spec_seal(a)
}

/// Specification step of the `module_asset` dispatch.
pub open spec fn module_asset_hook<P: Plugin>(module: ModuleIdentifier, asset_name: Seq<char>) -> spec_fn(P, ()) -> Result<(), Error> {
    |p: P, u: ()| p.spec_module_asset(module, asset_name)
}

/// Specification step of the `asset_emitted` dispatch.
pub open spec fn asset_emitted_hook<P: Plugin>(args: AssetEmittedArgs) -> spec_fn(P, ()) -> Result<(), Error> {
    |p: P, u: ()| p.spec_asset_emitted(args)
}

/// Specification step of the `normal_module_loader` dispatch.
pub open spec fn normal_module_loader_hook<P: Plugin>(module: NormalModule) -> spec_fn(P, LoaderContext) -> Result<LoaderContext, Error> {
    |p: P, c: LoaderContext| p.spec_normal_module_loader(c, module)
}

/// Specification step of the `render_module_content` dispatch.
pub open spec fn render_module_content_hook<P: Plugin>() -> spec_fn(P, RenderModuleContentArgs) -> Result<RenderModuleContentArgs, Error> {
    |p: P, a: RenderModuleContentArgs| p.spec_render_module_content(a)
}

/// Specification step of the `render_startup` dispatch.
pub open spec fn render_startup_hook<P: Plugin>(chunk: ChunkUkey, module: ModuleIdentifier) -> spec_fn(P, Source) -> Result<Source, Error> {
    |p: P, src: Source|
        match p.spec_render_startup(RenderStartupArgs { chunk, module, source: src }) {
            Result::Ok(Option::Some(s)) => Result::Ok(s),
            Result::Ok(Option::None) => Result::Ok(src),
            Result::Err(e) => Result::Err(e),
        }
}

/// Specification step of the `normal_module_factory_module` dispatch.
pub open spec fn normal_module_factory_module_hook<P: Plugin>() -> spec_fn(P, (BoxModule, NormalModuleCreateData)) -> Result<(BoxModule, NormalModuleCreateData), Error> {
    |p: P, st: (BoxModule, NormalModuleCreateData)| p.spec_normal_module_factory_module(st.0, st.1)
}

/// Specification step of the `normal_module_factory_resolve_for_scheme` dispatch.
pub open spec fn resolve_for_scheme_hook<P: Plugin>() -> spec_fn(P, ResourceData) -> Result<(ResourceData, bool), Error> {
    |p: P, a: ResourceData| p.spec_normal_module_factory_resolve_for_scheme(a)
}

/// Specification step of the `content_hash` dispatch.
pub open spec fn content_hash_hook<P: Plugin>(args: ContentHashArgs) -> spec_fn(P, Seq<Option<String>>) -> Result<Seq<Option<String>>, Error> {
    |p: P, m: Seq<Option<String>>|
        match p.spec_content_hash(args) {
            Result::Ok(Option::Some((source_type, digest))) => Result::Ok(
                VecMap::spec_insert(m, source_type.spec_code() as int, digest),
            ),
            Result::Ok(Option::None) => Result::Ok(m),
            Result::Err(e) => Result::Err(e),
        }
}

/// Specification step of the `render_manifest` dispatch.
pub open spec fn render_manifest_hook<P: Plugin>(args: RenderManifestArgs) -> spec_fn(P) -> Result<(Seq<RenderManifestEntry>, Seq<Diagnostic>), Error> {
    |p: P|
        match p.spec_render_manifest(args) {
            Result::Ok(v) => Result::Ok((v.0@, v.1@)),
            Result::Err(e) => Result::Err(e),
        }
}

/// Specification step of the `resolve_loader` dispatch.
pub open spec fn resolve_loader_hook<P: Plugin>(
    compiler_options: CompilerOptions,
    context: Seq<char>,
    resolver: Resolver,
    loader_request: Seq<char>,
    loader_options: Option<Seq<char>>,
) -> spec_fn(P) -> Result<Option<BoxLoader>, Error> {
    |p: P| p.spec_resolve_loader(compiler_options, context, resolver, loader_request, loader_options)
}

/// Owner of the plugin list and of the build's central diagnostics
/// collection.
pub struct PluginDriver<P: Plugin> {
    pub options: CompilerOptions,
    pub plugins: Vec<P>,
    pub resolver_factory: ResolverFactory,
    pub registered_parser_and_generator_builder: ParserAndGeneratorRegistry,
    /// Diagnostics produced as a side channel by plugin phases, e.g. a
    /// syntax error found while analysing one module.
    pub diagnostics: Vec<Diagnostic>,
}

impl<P: Plugin> PluginDriver<P> {
    /// Construction: runs every plugin's setup routine once, in order, each
    /// free to mutate the configuration and register builders, before the
    /// configuration is frozen in the driver. A setup failure is fatal and
    /// aborts construction.
    #[verifier::loop_isolation(false)]
    pub fn new(options: CompilerOptions, plugins: Vec<P>, resolver_factory: ResolverFactory) -> (r:
        Result<Self, Error>)
        ensures
            match dispatch_fold(
                plugins@,
                (Seq::<Option<ParserAndGeneratorBuilder>>::empty(), options),
                apply_hook::<P>(),
            ) {
                Result::Ok(st) => match r {
                    Result::Ok(d) => d.options == st.1
                        && d.registered_parser_and_generator_builder@ == st.0 && d.plugins
                        == plugins && d.resolver_factory == resolver_factory && d.diagnostics@
                        == Seq::<Diagnostic>::empty(),
                    Result::Err(_) => false,
                },
                Result::Err(e) => r == Result::<Self, Error>::Err(e),
            },
    {
        let ghost options0 = options;
        let mut options = options;
        let mut apply_context = ApplyContext {
            registered_parser_and_generator_builder: VecMap::default(),
        };
        let ghost st0 = (
            Seq::<Option<ParserAndGeneratorBuilder>>::empty(),
            options0,
        );
        let n: usize = plugins.len();
        let mut i: usize = 0;
        proof {
            assert(plugins@.skip(0) =~= plugins@);
        }
        while i < n
            invariant
                i <= n,
                n == plugins.len(),
                st0 == (Seq::<Option<ParserAndGeneratorBuilder>>::empty(), options0),
                dispatch_fold(plugins@, st0, apply_hook::<P>()) == dispatch_fold(
                    plugins@.skip(i as int),
                    (apply_context.registered_parser_and_generator_builder@, options),
                    apply_hook::<P>(),
                ),
            decreases n - i,
        {
            proof {
                lemma_skip_step(plugins@, i as int);
            }
            match plugins[i].apply(&mut apply_context, &mut options) {
                Ok(()) => {},
                Err(e) => {
                    return Err(e);
                },
            }
            i = i + 1;
        }
        proof {
            assert(plugins@.skip(n as int) =~= Seq::<P>::empty());
        }
        let ApplyContext { registered_parser_and_generator_builder } = apply_context;
        Ok(
            PluginDriver {
                options,
                plugins,
                resolver_factory,
                registered_parser_and_generator_builder,
                diagnostics: Vec::new(),
            },
        )
    }

    /// Atomically drains the accumulated diagnostics, resetting the
    /// collection to empty; intended to be called once per phase boundary.
    pub fn take_diagnostic(&mut self) -> (r: Vec<Diagnostic>)
        ensures
            r@ == old(self).diagnostics@,
            final(self).diagnostics@ == Seq::<Diagnostic>::empty(),
            final(self).options == old(self).options,
            final(self).plugins == old(self).plugins,
            final(self).resolver_factory == old(self).resolver_factory,
            final(self).registered_parser_and_generator_builder == old(
                self,
            ).registered_parser_and_generator_builder,
    {
        let mut d: Vec<Diagnostic> = Vec::new();
        core::mem::swap(&mut d, &mut self.diagnostics);
        d
    }

    /// First-wins: the first plugin that can read the resource claims it.
    pub fn read_resource(&self, resource_data: &ResourceData) -> (r: Result<Option<Content>, Error>)
        ensures
            r == dispatch_first_wins(self.plugins@, read_resource_hook::<P>(*resource_data)),
    {
        let n: usize = self.plugins.len();
        let mut i: usize = 0;
        proof {
            assert(self.plugins@.skip(0) =~= self.plugins@);
        }
        while i < n
            invariant
                i <= n,
                n == self.plugins.len(),
                dispatch_first_wins(self.plugins@, read_resource_hook::<P>(*resource_data))
                    == dispatch_first_wins(
                    self.plugins@.skip(i as int),
                    read_resource_hook::<P>(*resource_data),
                ),
            decreases n - i,
        {
            proof {
                lemma_skip_step(self.plugins@, i as int);
            }
            match self.plugins[i].read_resource(resource_data) {
                Ok(Some(c)) => {
                    return Ok(Some(c));
                },
                Ok(None) => {},
                Err(e) => {
                    return Err(e);
                },
            }
            i = i + 1;
        }
        proof {
            assert(self.plugins@.skip(n as int) =~= Seq::<P>::empty());
        }
        Ok(None)
    }

    /// Broadcast with a mutable argument record: every plugin may mix into
    /// the chunk hash; the first error aborts the rest.
    pub fn chunk_hash(&self, args: &mut ChunkHashArgs) -> (r: Result<(), Error>)
        ensures
            match dispatch_fold(self.plugins@, *old(args), chunk_hash_hook::<P>()) {
                Result::Ok(a2) => r == Result::<(), Error>::Ok(()) && *final(args) == a2,
                Result::Err(e) => r == Result::<(), Error>::Err(e),
            },
    {
        let n: usize = self.plugins.len();
        let ghost orig = *args;
        let mut i: usize = 0;
        proof {
            assert(self.plugins@.skip(0) =~= self.plugins@);
        }
        while i < n
            invariant
                i <= n,
                n == self.plugins.len(),
                orig == *old(args),
                dispatch_fold(self.plugins@, orig, chunk_hash_hook::<P>()) == dispatch_fold(
                    self.plugins@.skip(i as int),
                    *args,
                    chunk_hash_hook::<P>(),
                ),
            decreases n - i,
        {
            proof {
                lemma_skip_step(self.plugins@, i as int);
            }
            match self.plugins[i].chunk_hash(args) {
                Ok(()) => {},
                Err(e) => {
                    return Err(e);
                },
            }
            i = i + 1;
        }
        proof {
            assert(self.plugins@.skip(n as int) =~= Seq::<P>::empty());
        }
        Ok(())
    }

    /// First-wins: the first plugin that renders the chunk settles its output.
    pub fn render_chunk(&self, args: RenderChunkArgs) -> (r: Result<Option<Source>, Error>)
        ensures
            r == dispatch_first_wins(self.plugins@, render_chunk_hook::<P>(args)),
    {
        let n: usize = self.plugins.len();
        let mut i: usize = 0;
        proof {
            assert(self.plugins@.skip(0) =~= self.plugins@);
        }
        while i < n
            invariant
                i <= n,
                n == self.plugins.len(),
                dispatch_first_wins(self.plugins@, render_chunk_hook::<P>(args))
                    == dispatch_first_wins(
                    self.plugins@.skip(i as int),
                    render_chunk_hook::<P>(args),
                ),
            decreases n - i,
        {
            proof {
                lemma_skip_step(self.plugins@, i as int);
            }
            match self.plugins[i].render_chunk(&args) {
                Ok(Some(v)) => {
                    return Ok(Some(v));
                },
                Ok(None) => {},
                Err(e) => {
                    return Err(e);
                },
            }
            i = i + 1;
        }
        proof {
            assert(self.plugins@.skip(n as int) =~= Seq::<P>::empty());
        }
        Ok(None)
    }

    /// First-wins: the first plugin that renders the output settles it.
    pub fn render(&self, args: RenderArgs) -> (r: Result<Option<Source>, Error>)
        ensures
            r == dispatch_first_wins(self.plugins@, render_hook::<P>(args)),
    {
        let n: usize = self.plugins.len();
        let mut i: usize = 0;
        proof {
            assert(self.plugins@.skip(0) =~= self.plugins@);
        }
        while i < n
            invariant
                i <= n,
                n == self.plugins.len(),
                dispatch_first_wins(self.plugins@, render_hook::<P>(args))
                    == dispatch_first_wins(
                    self.plugins@.skip(i as int),
                    render_hook::<P>(args),
                ),
            decreases n - i,
        {
            proof {
                lemma_skip_step(self.plugins@, i as int);
            }
            match self.plugins[i].render(&args) {
                Ok(Some(v)) => {
                    return Ok(Some(v));
                },
                Ok(None) => {},
                Err(e) => {
                    return Err(e);
                },
            }
            i = i + 1;
        }
        proof {
            assert(self.plugins@.skip(n as int) =~= Seq::<P>::empty());
        }
        Ok(None)
    }

    /// First-wins with a mutable argument record: the first plugin that can construct the module claims it.
    pub fn factorize(&self, args: &mut FactorizeArgs) -> (r: Result<Option<BoxModule>, Error>)
        ensures
            match dispatch_first_wins_mut(self.plugins@, *old(args), factorize_hook::<P>()) {
                Result::Ok((a2, m)) => r == Result::<Option<BoxModule>, Error>::Ok(m) && *final(args) == a2,
                Result::Err(e) => r == Result::<Option<BoxModule>, Error>::Err(e),
            },
    {
        let n: usize = self.plugins.len();
        let ghost orig = *args;
        let mut i: usize = 0;
        proof {
            assert(self.plugins@.skip(0) =~= self.plugins@);
        }
        while i < n
            invariant
                i <= n,
                n == self.plugins.len(),
                orig == *old(args),
                dispatch_first_wins_mut(self.plugins@, orig, factorize_hook::<P>())
                    == dispatch_first_wins_mut(
                    self.plugins@.skip(i as int),
                    *args,
                    factorize_hook::<P>(),
                ),
            decreases n - i,
        {
            proof {
                lemma_skip_step(self.plugins@, i as int);
            }
            match self.plugins[i].factorize(args) {
                Ok(Some(v)) => {
                    return Ok(Some(v));
                },
                Ok(None) => {},
                Err(e) => {
                    return Err(e);
                },
            }
            i = i + 1;
        }
        proof {
            assert(self.plugins@.skip(n as int) =~= Seq::<P>::empty());
        }
        Ok(None)
    }

    /// First-wins with a mutable argument record: the first plugin that creates the module claims it.
    pub fn normal_module_factory_create_module(&self, args: &mut NormalModuleCreateData) -> (r: Result<Option<BoxModule>, Error>)
        ensures
            match dispatch_first_wins_mut(self.plugins@, *old(args), normal_module_factory_create_module_hook::<P>()) {
                Result::Ok((a2, m)) => r == Result::<Option<BoxModule>, Error>::Ok(m) && *final(args) == a2,
                Result::Err(e) => r == Result::<Option<BoxModule>, Error>::Err(e),
            },
    {
        let n: usize = self.plugins.len();
        let ghost orig = *args;
        let mut i: usize = 0;
        proof {
            assert(self.plugins@.skip(0) =~= self.plugins@);
        }
        while i < n
            invariant
                i <= n,
                n == self.plugins.len(),
                orig == *old(args),
                dispatch_first_wins_mut(self.plugins@, orig, normal_module_factory_create_module_hook::<P>())
                    == dispatch_first_wins_mut(
                    self.plugins@.skip(i as int),
                    *args,
                    normal_module_factory_create_module_hook::<P>(),
                ),
            decreases n - i,
        {
            proof {
                lemma_skip_step(self.plugins@, i as int);
            }
            match self.plugins[i].normal_module_factory_create_module(args) {
                Ok(Some(v)) => {
                    return Ok(Some(v));
                },
                Ok(None) => {},
                Err(e) => {
                    return Err(e);
                },
            }
            i = i + 1;
        }
        proof {
            assert(self.plugins@.skip(n as int) =~= Seq::<P>::empty());
        }
        Ok(None)
    }

    /// First-wins with a mutable argument record: the first plugin with a verdict after resolution settles it.
    pub fn after_resolve(&self, args: &mut NormalModuleAfterResolveArgs) -> (r: Result<Option<bool>, Error>)
        ensures
            match dispatch_first_wins_mut(self.plugins@, *old(args), after_resolve_hook::<P>()) {
                Result::Ok((a2, m)) => r == Result::<Option<bool>, Error>::Ok(m) && *final(args) == a2,
                Result::Err(e) => r == Result::<Option<bool>, Error>::Err(e),
            },
    {
        let n: usize = self.plugins.len();
        let ghost orig = *args;
        let mut i: usize = 0;
        proof {
            assert(self.plugins@.skip(0) =~= self.plugins@);
        }
        while i < n
            invariant
                i <= n,
                n == self.plugins.len(),
                orig == *old(args),
                dispatch_first_wins_mut(self.plugins@, orig, after_resolve_hook::<P>())
                    == dispatch_first_wins_mut(
                    self.plugins@.skip(i as int),
                    *args,
                    after_resolve_hook::<P>(),
                ),
            decreases n - i,
        {
            proof {
                lemma_skip_step(self.plugins@, i as int);
            }
            match self.plugins[i].after_resolve(args) {
                Ok(Some(v)) => {
                    return Ok(Some(v));
                },
                Ok(None) => {},
                Err(e) => {
                    return Err(e);
                },
            }
            i = i + 1;
        }
        proof {
            assert(self.plugins@.skip(n as int) =~= Seq::<P>::empty());
        }
        Ok(None)
    }

    /// First-wins with a mutable argument record: the first plugin with a verdict before context resolution settles it.
    pub fn context_module_before_resolve(&self, args: &mut BeforeResolveArgs) -> (r: Result<Option<bool>, Error>)
        ensures
            match dispatch_first_wins_mut(self.plugins@, *old(args), context_module_before_resolve_hook::<P>()) {
                Result::Ok((a2, m)) => r == Result::<Option<bool>, Error>::Ok(m) && *final(args) == a2,
                Result::Err(e) => r == Result::<Option<bool>, Error>::Err(e),
            },
    {
        let n: usize = self.plugins.len();
        let ghost orig = *args;
        let mut i: usize = 0;
        proof {
            assert(self.plugins@.skip(0) =~= self.plugins@);
        }
        while i < n
            invariant
                i <= n,
                n == self.plugins.len(),
                orig == *old(args),
                dispatch_first_wins_mut(self.plugins@, orig, context_module_before_resolve_hook::<P>())
                    == dispatch_first_wins_mut(
                    self.plugins@.skip(i as int),
                    *args,
                    context_module_before_resolve_hook::<P>(),
                ),
            decreases n - i,
        {
            proof {
                lemma_skip_step(self.plugins@, i as int);
            }
            match self.plugins[i].context_module_before_resolve(args) {
                Ok(Some(v)) => {
                    return Ok(Some(v));
                },
                Ok(None) => {},
                Err(e) => {
                    return Err(e);
                },
            }
            i = i + 1;
        }
        proof {
            assert(self.plugins@.skip(n as int) =~= Seq::<P>::empty());
        }
        Ok(None)
    }

    /// First-wins with a mutable argument record: the first plugin with a verdict after context resolution settles it.
    pub fn context_module_after_resolve(&self, args: &mut NormalModuleAfterResolveArgs) -> (r: Result<Option<bool>, Error>)
        ensures
            match dispatch_first_wins_mut(self.plugins@, *old(args), context_module_after_resolve_hook::<P>()) {
                Result::Ok((a2, m)) => r == Result::<Option<bool>, Error>::Ok(m) && *final(args) == a2,
                Result::Err(e) => r == Result::<Option<bool>, Error>::Err(e),
            },
    {
        let n: usize = self.plugins.len();
        let ghost orig = *args;
        let mut i: usize = 0;
        proof {
            assert(self.plugins@.skip(0) =~= self.plugins@);
        }
        while i < n
            invariant
                i <= n,
                n == self.plugins.len(),
                orig == *old(args),
                dispatch_first_wins_mut(self.plugins@, orig, context_module_after_resolve_hook::<P>())
                    == dispatch_first_wins_mut(
                    self.plugins@.skip(i as int),
                    *args,
                    context_module_after_resolve_hook::<P>(),
                ),
            decreases n - i,
        {
            proof {
                lemma_skip_step(self.plugins@, i as int);
            }
            match self.plugins[i].context_module_after_resolve(args) {
                Ok(Some(v)) => {
                    return Ok(Some(v));
                },
                Ok(None) => {},
                Err(e) => {
                    return Err(e);
                },
            }
            i = i + 1;
        }
        proof {
            assert(self.plugins@.skip(n as int) =~= Seq::<P>::empty());
        }
        Ok(None)
    }

    /// First-wins with a mutable argument record: the first plugin that optimizes dependencies settles the pass.
    pub fn optimize_dependencies(&self, compilation: &mut Compilation) -> (r: Result<Option<()>, Error>)
        ensures
            match dispatch_first_wins_mut(self.plugins@, *old(compilation), optimize_dependencies_hook::<P>()) {
                Result::Ok((a2, m)) => r == Result::<Option<()>, Error>::Ok(m) && *final(compilation) == a2,
                Result::Err(e) => r == Result::<Option<()>, Error>::Err(e),
            },
    {
        let n: usize = self.plugins.len();
        let ghost orig = *compilation;
        let mut i: usize = 0;
        proof {
            assert(self.plugins@.skip(0) =~= self.plugins@);
        }
        while i < n
            invariant
                i <= n,
                n == self.plugins.len(),
                orig == *old(compilation),
                dispatch_first_wins_mut(self.plugins@, orig, optimize_dependencies_hook::<P>())
                    == dispatch_first_wins_mut(
                    self.plugins@.skip(i as int),
                    *compilation,
                    optimize_dependencies_hook::<P>(),
                ),
            decreases n - i,
        {
            proof {
                lemma_skip_step(self.plugins@, i as int);
            }
            match self.plugins[i].optimize_dependencies(compilation) {
                Ok(Some(v)) => {
                    return Ok(Some(v));
                },
                Ok(None) => {},
                Err(e) => {
                    return Err(e);
                },
            }
            i = i + 1;
        }
        proof {
            assert(self.plugins@.skip(n as int) =~= Seq::<P>::empty());
        }
        Ok(None)
    }

    /// First-wins with a mutable argument record: the first plugin that optimizes code generation settles the pass.
    pub fn optimize_code_generation(&self, compilation: &mut Compilation) -> (r: Result<Option<()>, Error>)
        ensures
            match dispatch_first_wins_mut(self.plugins@, *old(compilation), optimize_code_generation_hook::<P>()) {
                Result::Ok((a2, m)) => r == Result::<Option<()>, Error>::Ok(m) && *final(compilation) == a2,
                Result::Err(e) => r == Result::<Option<()>, Error>::Err(e),
            },
    {
        let n: usize = self.plugins.len();
        let ghost orig = *compilation;
        let mut i: usize = 0;
        proof {
            assert(self.plugins@.skip(0) =~= self.plugins@);
        }
        while i < n
            invariant
                i <= n,
                n == self.plugins.len(),
                orig == *old(compilation),
                dispatch_first_wins_mut(self.plugins@, orig, optimize_code_generation_hook::<P>())
                    == dispatch_first_wins_mut(
                    self.plugins@.skip(i as int),
                    *compilation,
                    optimize_code_generation_hook::<P>(),
                ),
            decreases n - i,
        {
            proof {
                lemma_skip_step(self.plugins@, i as int);
            }
            match self.plugins[i].optimize_code_generation(compilation) {
                Ok(Some(v)) => {
                    return Ok(Some(v));
                },
                Ok(None) => {},
                Err(e) => {
                    return Err(e);
                },
            }
            i = i + 1;
        }
        proof {
            assert(self.plugins@.skip(n as int) =~= Seq::<P>::empty());
        }
        Ok(None)
    }

    /// Broadcast: every plugin may mix into the chunk's hash for generated code. The first plugin error aborts the rest.
    pub fn js_chunk_hash(&self, args: &mut JsChunkHashArgs) -> (r: Result<(), Error>)
        ensures
            match dispatch_fold(self.plugins@, *old(args), js_chunk_hash_hook::<P>()) {
                Result::Ok(a2) => r == Result::<(), Error>::Ok(()) && *final(args) == a2,
                Result::Err(e) => r == Result::<(), Error>::Err(e),
            },
    {
        let n: usize = self.plugins.len();
        let ghost orig = *args;
        let mut i: usize = 0;
        proof {
            assert(self.plugins@.skip(0) =~= self.plugins@);
        }
        while i < n
            invariant
                i <= n,
                n == self.plugins.len(),
                orig == *old(args),
                dispatch_fold(self.plugins@, orig, js_chunk_hash_hook::<P>()) == dispatch_fold(
                    self.plugins@.skip(i as int),
                    *args,
                    js_chunk_hash_hook::<P>(),
                ),
            decreases n - i,
        {
            proof {
                lemma_skip_step(self.plugins@, i as int);
            }
            match self.plugins[i].js_chunk_hash(args) {
                Ok(()) => {},
                Err(e) => {
                    return Err(e);
                },
            }
            i = i + 1;
        }
        proof {
            assert(self.plugins@.skip(n as int) =~= Seq::<P>::empty());
        }
        Ok(())
    }

    /// Broadcast: every plugin may add runtime requirements of the chunk. The first plugin error aborts the rest.
    pub fn additional_chunk_runtime_requirements(&self, args: &mut AdditionalChunkRuntimeRequirementsArgs) -> (r: Result<(), Error>)
        ensures
            match dispatch_fold(self.plugins@, *old(args), additional_chunk_runtime_requirements_hook::<P>()) {
                Result::Ok(a2) => r == Result::<(), Error>::Ok(()) && *final(args) == a2,
                Result::Err(e) => r == Result::<(), Error>::Err(e),
            },
    {
        let n: usize = self.plugins.len();
        let ghost orig = *args;
        let mut i: usize = 0;
        proof {
            assert(self.plugins@.skip(0) =~= self.plugins@);
        }
        while i < n
            invariant
                i <= n,
                n == self.plugins.len(),
                orig == *old(args),
                dispatch_fold(self.plugins@, orig, additional_chunk_runtime_requirements_hook::<P>()) == dispatch_fold(
                    self.plugins@.skip(i as int),
                    *args,
                    additional_chunk_runtime_requirements_hook::<P>(),
                ),
            decreases n - i,
        {
            proof {
                lemma_skip_step(self.plugins@, i as int);
            }
            match self.plugins[i].additional_chunk_runtime_requirements(args) {
                Ok(()) => {},
                Err(e) => {
                    return Err(e);
                },
            }
            i = i + 1;
        }
        proof {
            assert(self.plugins@.skip(n as int) =~= Seq::<P>::empty());
        }
        Ok(())
    }

    /// Broadcast: every plugin may add runtime requirements of the chunk tree. The first plugin error aborts the rest.
    pub fn additional_tree_runtime_requirements(&self, args: &mut AdditionalChunkRuntimeRequirementsArgs) -> (r: Result<(), Error>)
        ensures
            match dispatch_fold(self.plugins@, *old(args), additional_tree_runtime_requirements_hook::<P>()) {
                Result::Ok(a2) => r == Result::<(), Error>::Ok(()) && *final(args) == a2,
                Result::Err(e) => r == Result::<(), Error>::Err(e),
            },
    {
        let n: usize = self.plugins.len();
        let ghost orig = *args;
        let mut i: usize = 0;
        proof {
            assert(self.plugins@.skip(0) =~= self.plugins@);
        }
        while i < n
            invariant
                i <= n,
                n == self.plugins.len(),
                orig == *old(args),
                dispatch_fold(self.plugins@, orig, additional_tree_runtime_requirements_hook::<P>()) == dispatch_fold(
                    self.plugins@.skip(i as int),
                    *args,
                    additional_tree_runtime_requirements_hook::<P>(),
                ),
            decreases n - i,
        {
            proof {
                lemma_skip_step(self.plugins@, i as int);
            }
            match self.plugins[i].additional_tree_runtime_requirements(args) {
                Ok(()) => {},
                Err(e) => {
                    return Err(e);
                },
            }
            i = i + 1;
        }
        proof {
            assert(self.plugins@.skip(n as int) =~= Seq::<P>::empty());
        }
        Ok(())
    }

    /// Broadcast: every plugin may add runtime requirements of one module. The first plugin error aborts the rest.
    pub fn runtime_requirement_in_module(&self, args: &mut AdditionalModuleRequirementsArgs) -> (r: Result<(), Error>)
        ensures
            match dispatch_fold(self.plugins@, *old(args), runtime_requirements_in_module_hook::<P>()) {
                Result::Ok(a2) => r == Result::<(), Error>::Ok(()) && *final(args) == a2,
                Result::Err(e) => r == Result::<(), Error>::Err(e),
            },
    {
        let n: usize = self.plugins.len();
        let ghost orig = *args;
        let mut i: usize = 0;
        proof {
            assert(self.plugins@.skip(0) =~= self.plugins@);
        }
        while i < n
            invariant
                i <= n,
                n == self.plugins.len(),
                orig == *old(args),
                dispatch_fold(self.plugins@, orig, runtime_requirements_in_module_hook::<P>()) == dispatch_fold(
                    self.plugins@.skip(i as int),
                    *args,
                    runtime_requirements_in_module_hook::<P>(),
                ),
            decreases n - i,
        {
            proof {
                lemma_skip_step(self.plugins@, i as int);
            }
            match self.plugins[i].runtime_requirements_in_module(args) {
                Ok(()) => {},
                Err(e) => {
                    return Err(e);
                },
            }
            i = i + 1;
        }
        proof {
            assert(self.plugins@.skip(n as int) =~= Seq::<P>::empty());
        }
        Ok(())
    }

    /// Broadcast: every plugin may add runtime requirements across the tree. The first plugin error aborts the rest.
    pub fn runtime_requirements_in_tree(&self, args: &mut RuntimeRequirementsInTreeArgs) -> (r: Result<(), Error>)
        ensures
            match dispatch_fold(self.plugins@, *old(args), runtime_requirements_in_tree_hook::<P>()) {
                Result::Ok(a2) => r == Result::<(), Error>::Ok(()) && *final(args) == a2,
                Result::Err(e) => r == Result::<(), Error>::Err(e),
            },
    {
        let n: usize = self.plugins.len();
        let ghost orig = *args;
        let mut i: usize = 0;
        proof {
            assert(self.plugins@.skip(0) =~= self.plugins@);
        }
        while i < n
            invariant
                i <= n,
                n == self.plugins.len(),
                orig == *old(args),
                dispatch_fold(self.plugins@, orig, runtime_requirements_in_tree_hook::<P>()) == dispatch_fold(
                    self.plugins@.skip(i as int),
                    *args,
                    runtime_requirements_in_tree_hook::<P>(),
                ),
            decreases n - i,
        {
            proof {
                lemma_skip_step(self.plugins@, i as int);
            }
            match self.plugins[i].runtime_requirements_in_tree(args) {
                Ok(()) => {},
                Err(e) => {
                    return Err(e);
                },
            }
            i = i + 1;
        }
        proof {
            assert(self.plugins@.skip(n as int) =~= Seq::<P>::empty());
        }
        Ok(())
    }

    /// Broadcast: every plugin is notified after asset processing. The first plugin error aborts the rest.
    pub fn after_process_assets(&self, compilation: &mut Compilation) -> (r: Result<(), Error>)
        ensures
            match dispatch_fold(self.plugins@, *old(compilation), after_process_assets_hook::<P>()) {
                Result::Ok(a2) => r == Result::<(), Error>::Ok(()) && *final(compilation) == a2,
                Result::Err(e) => r == Result::<(), Error>::Err(e),
            },
    {
        let n: usize = self.plugins.len();
        let ghost orig = *compilation;
        let mut i: usize = 0;
        proof {
            assert(self.plugins@.skip(0) =~= self.plugins@);
        }
        while i < n
            invariant
                i <= n,
                n == self.plugins.len(),
                orig == *old(compilation),
                dispatch_fold(self.plugins@, orig, after_process_assets_hook::<P>()) == dispatch_fold(
                    self.plugins@.skip(i as int),
                    *compilation,
                    after_process_assets_hook::<P>(),
                ),
            decreases n - i,
        {
            proof {
                lemma_skip_step(self.plugins@, i as int);
            }
            match self.plugins[i].after_process_assets(compilation) {
                Ok(()) => {},
                Err(e) => {
                    return Err(e);
                },
            }
            i = i + 1;
        }
        proof {
            assert(self.plugins@.skip(n as int) =~= Seq::<P>::empty());
        }
        Ok(())
    }

    /// Broadcast: every plugin is notified that the build finished. The first plugin error aborts the rest.
    pub fn done(&self, stats: &mut Stats) -> (r: Result<(), Error>)
        ensures
            match dispatch_fold(self.plugins@, *old(stats), done_hook::<P>()) {
                Result::Ok(a2) => r == Result::<(), Error>::Ok(()) && *final(stats) == a2,
                Result::Err(e) => r == Result::<(), Error>::Err(e),
            },
    {
        let n: usize = self.plugins.len();
        let ghost orig = *stats;
        let mut i: usize = 0;
        proof {
            assert(self.plugins@.skip(0) =~= self.plugins@);
        }
        while i < n
            invariant
                i <= n,
                n == self.plugins.len(),
                orig == *old(stats),
                dispatch_fold(self.plugins@, orig, done_hook::<P>()) == dispatch_fold(
                    self.plugins@.skip(i as int),
                    *stats,
                    done_hook::<P>(),
                ),
            decreases n - i,
        {
            proof {
                lemma_skip_step(self.plugins@, i as int);
            }
            match self.plugins[i].done(stats) {
                Ok(()) => {},
                Err(e) => {
                    return Err(e);
                },
            }
            i = i + 1;
        }
        proof {
            assert(self.plugins@.skip(n as int) =~= Seq::<P>::empty());
        }
        Ok(())
    }

    /// Broadcast: every plugin may rearrange the chunks. The first plugin error aborts the rest.
    pub fn optimize_chunks(&self, compilation: &mut Compilation) -> (r: Result<(), Error>)
        ensures
            match dispatch_fold(self.plugins@, *old(compilation), optimize_chunks_hook::<P>()) {
                Result::Ok(a2) => r == Result::<(), Error>::Ok(()) && *final(compilation) == a2,
                Result::Err(e) => r == Result::<(), Error>::Err(e),
            },
    {
        let n: usize = self.plugins.len();
        let ghost orig = *compilation;
        let mut i: usize = 0;
        proof {
            assert(self.plugins@.skip(0) =~= self.plugins@);
        }
        while i < n
            invariant
                i <= n,
                n == self.plugins.len(),
                orig == *old(compilation),
                dispatch_fold(self.plugins@, orig, optimize_chunks_hook::<P>()) == dispatch_fold(
                    self.plugins@.skip(i as int),
                    *compilation,
                    optimize_chunks_hook::<P>(),
                ),
            decreases n - i,
        {
            proof {
                lemma_skip_step(self.plugins@, i as int);
            }
            match self.plugins[i].optimize_chunks(compilation) {
                Ok(()) => {},
                Err(e) => {
                    return Err(e);
                },
            }
            i = i + 1;
        }
        proof {
            assert(self.plugins@.skip(n as int) =~= Seq::<P>::empty());
        }
        Ok(())
    }

    /// Broadcast: every plugin may optimize the modules. The first plugin error aborts the rest.
    pub fn optimize_modules(&self, compilation: &mut Compilation) -> (r: Result<(), Error>)
        ensures
            match dispatch_fold(self.plugins@, *old(compilation), optimize_modules_hook::<P>()) {
                Result::Ok(a2) => r == Result::<(), Error>::Ok(()) && *final(compilation) == a2,
                Result::Err(e) => r == Result::<(), Error>::Err(e),
            },
    {
        let n: usize = self.plugins.len();
        let ghost orig = *compilation;
        let mut i: usize = 0;
        proof {
            assert(self.plugins@.skip(0) =~= self.plugins@);
        }
        while i < n
            invariant
                i <= n,
                n == self.plugins.len(),
                orig == *old(compilation),
                dispatch_fold(self.plugins@, orig, optimize_modules_hook::<P>()) == dispatch_fold(
                    self.plugins@.skip(i as int),
                    *compilation,
                    optimize_modules_hook::<P>(),
                ),
            decreases n - i,
        {
            proof {
                lemma_skip_step(self.plugins@, i as int);
            }
            match self.plugins[i].optimize_modules(compilation) {
                Ok(()) => {},
                Err(e) => {
                    return Err(e);
                },
            }
            i = i + 1;
        }
        proof {
            assert(self.plugins@.skip(n as int) =~= Seq::<P>::empty());
        }
        Ok(())
    }

    /// Broadcast: every plugin is notified after module optimization. The first plugin error aborts the rest.
    pub fn after_optimize_modules(&self, compilation: &mut Compilation) -> (r: Result<(), Error>)
        ensures
            match dispatch_fold(self.plugins@, *old(compilation), after_optimize_modules_hook::<P>()) {
                Result::Ok(a2) => r == Result::<(), Error>::Ok(()) && *final(compilation) == a2,
                Result::Err(e) => r == Result::<(), Error>::Err(e),
            },
    {
        let n: usize = self.plugins.len();
        let ghost orig = *compilation;
        let mut i: usize = 0;
        proof {
            assert(self.plugins@.skip(0) =~= self.plugins@);
        }
        while i < n
            invariant
                i <= n,
                n == self.plugins.len(),
                orig == *old(compilation),
                dispatch_fold(self.plugins@, orig, after_optimize_modules_hook::<P>()) == dispatch_fold(
                    self.plugins@.skip(i as int),
                    *compilation,
                    after_optimize_modules_hook::<P>(),
                ),
            decreases n - i,
        {
            proof {
                lemma_skip_step(self.plugins@, i as int);
            }
            match self.plugins[i].after_optimize_modules(compilation) {
                Ok(()) => {},
                Err(e) => {
                    return Err(e);
                },
            }
            i = i + 1;
        }
        proof {
            assert(self.plugins@.skip(n as int) =~= Seq::<P>::empty());
        }
        Ok(())
    }

    /// Broadcast: every plugin may optimize the chunk tree. The first plugin error aborts the rest.
    pub fn optimize_tree(&self, compilation: &mut Compilation) -> (r: Result<(), Error>)
        ensures
            match dispatch_fold(self.plugins@, *old(compilation), optimize_tree_hook::<P>()) {
                Result::Ok(a2) => r == Result::<(), Error>::Ok(()) && *final(compilation) == a2,
                Result::Err(e) => r == Result::<(), Error>::Err(e),
            },
    {
        let n: usize = self.plugins.len();
        let ghost orig = *compilation;
        let mut i: usize = 0;
        proof {
            assert(self.plugins@.skip(0) =~= self.plugins@);
        }
        while i < n
            invariant
                i <= n,
                n == self.plugins.len(),
                orig == *old(compilation),
                dispatch_fold(self.plugins@, orig, optimize_tree_hook::<P>()) == dispatch_fold(
                    self.plugins@.skip(i as int),
                    *compilation,
                    optimize_tree_hook::<P>(),
                ),
            decreases n - i,
        {
            proof {
                lemma_skip_step(self.plugins@, i as int);
            }
            match self.plugins[i].optimize_tree(compilation) {
                Ok(()) => {},
                Err(e) => {
                    return Err(e);
                },
            }
            i = i + 1;
        }
        proof {
            assert(self.plugins@.skip(n as int) =~= Seq::<P>::empty());
        }
        Ok(())
    }

    /// Broadcast: every plugin may optimize the modules of the chunks. The first plugin error aborts the rest.
    pub fn optimize_chunk_modules(&self, compilation: &mut Compilation) -> (r: Result<(), Error>)
        ensures
            match dispatch_fold(self.plugins@, *old(compilation), optimize_chunk_modules_hook::<P>()) {
                Result::Ok(a2) => r == Result::<(), Error>::Ok(()) && *final(compilation) == a2,
                Result::Err(e) => r == Result::<(), Error>::Err(e),
            },
    {
        let n: usize = self.plugins.len();
        let ghost orig = *compilation;
        let mut i: usize = 0;
        proof {
            assert(self.plugins@.skip(0) =~= self.plugins@);
        }
        while i < n
            invariant
                i <= n,
                n == self.plugins.len(),
                orig == *old(compilation),
                dispatch_fold(self.plugins@, orig, optimize_chunk_modules_hook::<P>()) == dispatch_fold(
                    self.plugins@.skip(i as int),
                    *compilation,
                    optimize_chunk_modules_hook::<P>(),
                ),
            decreases n - i,
        {
            proof {
                lemma_skip_step(self.plugins@, i as int);
            }
            match self.plugins[i].optimize_chunk_modules(compilation) {
                Ok(()) => {},
                Err(e) => {
                    return Err(e);
                },
            }
            i = i + 1;
        }
        proof {
            assert(self.plugins@.skip(n as int) =~= Seq::<P>::empty());
        }
        Ok(())
    }

    /// Broadcast: every plugin may adjust the module before its loaders run. The first plugin error aborts the rest.
    pub fn before_loaders(&self, module: &mut NormalModule) -> (r: Result<(), Error>)
        ensures
            match dispatch_fold(self.plugins@, *old(module), before_loaders_hook::<P>()) {
                Result::Ok(a2) => r == Result::<(), Error>::Ok(()) && *final(module) == a2,
                Result::Err(e) => r == Result::<(), Error>::Err(e),
            },
    {
        let n: usize = self.plugins.len();
        let ghost orig = *module;
        let mut i: usize = 0;
        proof {
            assert(self.plugins@.skip(0) =~= self.plugins@);
        }
        while i < n
            invariant
                i <= n,
                n == self.plugins.len(),
                orig == *old(module),
                dispatch_fold(self.plugins@, orig, before_loaders_hook::<P>()) == dispatch_fold(
                    self.plugins@.skip(i as int),
                    *module,
                    before_loaders_hook::<P>(),
                ),
            decreases n - i,
        {
            proof {
                lemma_skip_step(self.plugins@, i as int);
            }
            match self.plugins[i].before_loaders(module) {
                Ok(()) => {},
                Err(e) => {
                    return Err(e);
                },
            }
            i = i + 1;
        }
        proof {
            assert(self.plugins@.skip(n as int) =~= Seq::<P>::empty());
        }
        Ok(())
    }

    /// Broadcast: every plugin may assign module ids. The first plugin error aborts the rest.
    pub fn module_ids(&self, compilation: &mut Compilation) -> (r: Result<(), Error>)
        ensures
            match dispatch_fold(self.plugins@, *old(compilation), module_ids_hook::<P>()) {
                Result::Ok(a2) => r == Result::<(), Error>::Ok(()) && *final(compilation) == a2,
                Result::Err(e) => r == Result::<(), Error>::Err(e),
            },
    {
        let n: usize = self.plugins.len();
        let ghost orig = *compilation;
        let mut i: usize = 0;
        proof {
            assert(self.plugins@.skip(0) =~= self.plugins@);
        }
        while i < n
            invariant
                i <= n,
                n == self.plugins.len(),
                orig == *old(compilation),
                dispatch_fold(self.plugins@, orig, module_ids_hook::<P>()) == dispatch_fold(
                    self.plugins@.skip(i as int),
                    *compilation,
                    module_ids_hook::<P>(),
                ),
            decreases n - i,
        {
            proof {
                lemma_skip_step(self.plugins@, i as int);
            }
            match self.plugins[i].module_ids(compilation) {
                Ok(()) => {},
                Err(e) => {
                    return Err(e);
                },
            }
            i = i + 1;
        }
        proof {
            assert(self.plugins@.skip(n as int) =~= Seq::<P>::empty());
        }
        Ok(())
    }

    /// Broadcast: every plugin may assign chunk ids. The first plugin error aborts the rest.
    pub fn chunk_ids(&self, compilation: &mut Compilation) -> (r: Result<(), Error>)
        ensures
            match dispatch_fold(self.plugins@, *old(compilation), chunk_ids_hook::<P>()) {
                Result::Ok(a2) => r == Result::<(), Error>::Ok(()) && *final(compilation) == a2,
                Result::Err(e) => r == Result::<(), Error>::Err(e),
            },
    {
        let n: usize = self.plugins.len();
        let ghost orig = *compilation;
        let mut i: usize = 0;
        proof {
            assert(self.plugins@.skip(0) =~= self.plugins@);
        }
        while i < n
            invariant
                i <= n,
                n == self.plugins.len(),
                orig == *old(compilation),
                dispatch_fold(self.plugins@, orig, chunk_ids_hook::<P>()) == dispatch_fold(
                    self.plugins@.skip(i as int),
                    *compilation,
                    chunk_ids_hook::<P>(),
                ),
            decreases n - i,
        {
            proof {
                lemma_skip_step(self.plugins@, i as int);
            }
            match self.plugins[i].chunk_ids(compilation) {
                Ok(()) => {},
                Err(e) => {
                    return Err(e);
                },
            }
            i = i + 1;
        }
        proof {
            assert(self.plugins@.skip(n as int) =~= Seq::<P>::empty());
        }
        Ok(())
    }

    /// Broadcast: every plugin takes part in emission. The first plugin error aborts the rest.
    pub fn emit(&self, compilation: &mut Compilation) -> (r: Result<(), Error>)
        ensures
            match dispatch_fold(self.plugins@, *old(compilation), emit_hook::<P>()) {
                Result::Ok(a2) => r == Result::<(), Error>::Ok(()) && *final(compilation) == a2,
                Result::Err(e) => r == Result::<(), Error>::Err(e),
            },
    {
        let n: usize = self.plugins.len();
        let ghost orig = *compilation;
        let mut i: usize = 0;
        proof {
            assert(self.plugins@.skip(0) =~= self.plugins@);
        }
        while i < n
            invariant
                i <= n,
                n == self.plugins.len(),
                orig == *old(compilation),
                dispatch_fold(self.plugins@, orig, emit_hook::<P>()) == dispatch_fold(
                    self.plugins@.skip(i as int),
                    *compilation,
                    emit_hook::<P>(),
                ),
            decreases n - i,
        {
            proof {
                lemma_skip_step(self.plugins@, i as int);
            }
            match self.plugins[i].emit(compilation) {
                Ok(()) => {},
                Err(e) => {
                    return Err(e);
                },
            }
            i = i + 1;
        }
        proof {
            assert(self.plugins@.skip(n as int) =~= Seq::<P>::empty());
        }
        Ok(())
    }

    /// Broadcast: every plugin is notified after emission. The first plugin error aborts the rest.
    pub fn after_emit(&self, compilation: &mut Compilation) -> (r: Result<(), Error>)
        ensures
            match dispatch_fold(self.plugins@, *old(compilation), after_emit_hook::<P>()) {
                Result::Ok(a2) => r == Result::<(), Error>::Ok(()) && *final(compilation) == a2,
                Result::Err(e) => r == Result::<(), Error>::Err(e),
            },
    {
        let n: usize = self.plugins.len();
        let ghost orig = *compilation;
        let mut i: usize = 0;
        proof {
            assert(self.plugins@.skip(0) =~= self.plugins@);
        }
        while i < n
            invariant
                i <= n,
                n == self.plugins.len(),
                orig == *old(compilation),
                dispatch_fold(self.plugins@, orig, after_emit_hook::<P>()) == dispatch_fold(
                    self.plugins@.skip(i as int),
                    *compilation,
                    after_emit_hook::<P>(),
                ),
            decreases n - i,
        {
            proof {
                lemma_skip_step(self.plugins@, i as int);
            }
            match self.plugins[i].after_emit(compilation) {
                Ok(()) => {},
                Err(e) => {
                    return Err(e);
                },
            }
            i = i + 1;
        }
        proof {
            assert(self.plugins@.skip(n as int) =~= Seq::<P>::empty());
        }
        Ok(())
    }

    /// Broadcast: every plugin is notified that the compilation is sealed. The first plugin error aborts the rest.
    pub fn seal(&self, compilation: &mut Compilation) -> (r: Result<(), Error>)
        ensures
            match dispatch_fold(self.plugins@, *old(compilation), seal_hook::<P>()) {
                Result::Ok(a2) => r == Result::<(), Error>::Ok(()) && *final(compilation) == a2,
                Result::Err(e) => r == Result::<(), Error>::Err(e),
            },
    {
        let n: usize = self.plugins.len();
        let ghost orig = *compilation;
        let mut i: usize = 0;
        proof {
            assert(self.plugins@.skip(0) =~= self.plugins@);
        }
        while i < n
            invariant
                i <= n,
                n == self.plugins.len(),
                orig == *old(compilation),
                dispatch_fold(self.plugins@, orig, seal_hook::<P>()) == dispatch_fold(
                    self.plugins@.skip(i as int),
                    *compilation,
                    seal_hook::<P>(),
                ),
            decreases n - i,
        {
            proof {
                lemma_skip_step(self.plugins@, i as int);
            }
            match self.plugins[i].seal(compilation) {
                Ok(()) => {},
                Err(e) => {
                    return Err(e);
                },
            }
            i = i + 1;
        }
        proof {
            assert(self.plugins@.skip(n as int) =~= Seq::<P>::empty());
        }
        Ok(())
    }

    /// Broadcast: every plugin is told about the module's asset, in
    /// registration order; the first error aborts the rest.
    pub fn module_asset(&self, module: ModuleIdentifier, asset_name: String) -> (r: Result<
        (),
        Error,
    >)
        ensures
            r == dispatch_fold(self.plugins@, (), module_asset_hook::<P>(module, asset_name@)),
    {
        let n: usize = self.plugins.len();
        let mut i: usize = 0;
        proof {
            assert(self.plugins@.skip(0) =~= self.plugins@);
        }
        while i < n
            invariant
                i <= n,
                n == self.plugins.len(),
                dispatch_fold(self.plugins@, (), module_asset_hook::<P>(module, asset_name@))
                    == dispatch_fold(
                    self.plugins@.skip(i as int),
                    (),
                    module_asset_hook::<P>(module, asset_name@),
                ),
            decreases n - i,
        {
            proof {
                lemma_skip_step(self.plugins@, i as int);
            }
            match self.plugins[i].module_asset(module, asset_name.as_str()) {
                Ok(()) => {},
                Err(e) => {
                    return Err(e);
                },
            }
            i = i + 1;
        }
        proof {
            assert(self.plugins@.skip(n as int) =~= Seq::<P>::empty());
        }
        Ok(())
    }

    /// Broadcast: every plugin is told that an asset was emitted, in
    /// registration order; the first error aborts the rest.
    pub fn asset_emitted(&self, args: &AssetEmittedArgs) -> (r: Result<(), Error>)
        ensures
            r == dispatch_fold(self.plugins@, (), asset_emitted_hook::<P>(*args)),
    {
        let n: usize = self.plugins.len();
        let mut i: usize = 0;
        proof {
            assert(self.plugins@.skip(0) =~= self.plugins@);
        }
        while i < n
            invariant
                i <= n,
                n == self.plugins.len(),
                dispatch_fold(self.plugins@, (), asset_emitted_hook::<P>(*args)) == dispatch_fold(
                    self.plugins@.skip(i as int),
                    (),
                    asset_emitted_hook::<P>(*args),
                ),
            decreases n - i,
        {
            proof {
                lemma_skip_step(self.plugins@, i as int);
            }
            match self.plugins[i].asset_emitted(args) {
                Ok(()) => {},
                Err(e) => {
                    return Err(e);
                },
            }
            i = i + 1;
        }
        proof {
            assert(self.plugins@.skip(n as int) =~= Seq::<P>::empty());
        }
        Ok(())
    }

    /// Broadcast: every plugin may adjust the loader run of the module; the
    /// first error aborts the rest.
    pub fn normal_module_loader(
        &self,
        loader_context: &mut LoaderContext,
        module: &NormalModule,
    ) -> (r: Result<(), Error>)
        ensures
            match dispatch_fold(
                self.plugins@,
                *old(loader_context),
                normal_module_loader_hook::<P>(*module),
            ) {
                Result::Ok(c2) => r == Result::<(), Error>::Ok(()) && *final(loader_context) == c2,
                Result::Err(e) => r == Result::<(), Error>::Err(e),
            },
    {
        let n: usize = self.plugins.len();
        let ghost orig = *loader_context;
        let mut i: usize = 0;
        proof {
            assert(self.plugins@.skip(0) =~= self.plugins@);
        }
        while i < n
            invariant
                i <= n,
                n == self.plugins.len(),
                orig == *old(loader_context),
                dispatch_fold(self.plugins@, orig, normal_module_loader_hook::<P>(*module))
                    == dispatch_fold(
                    self.plugins@.skip(i as int),
                    *loader_context,
                    normal_module_loader_hook::<P>(*module),
                ),
            decreases n - i,
        {
            proof {
                lemma_skip_step(self.plugins@, i as int);
            }
            match self.plugins[i].normal_module_loader(loader_context, module) {
                Ok(()) => {},
                Err(e) => {
                    return Err(e);
                },
            }
            i = i + 1;
        }
        proof {
            assert(self.plugins@.skip(n as int) =~= Seq::<P>::empty());
        }
        Ok(())
    }

    /// Fold: the module's rendered content is threaded through every
    /// plugin, each free to replace it with a transformed value.
    #[verifier::loop_isolation(false)]
    pub fn render_module_content(&self, args: RenderModuleContentArgs) -> (r: Result<
        RenderModuleContentArgs,
        Error,
    >)
        ensures
            r == dispatch_fold(self.plugins@, args, render_module_content_hook::<P>()),
    {
        let ghost args0 = args;
        let n: usize = self.plugins.len();
        let mut cur = args;
        let mut i: usize = 0;
        proof {
            assert(self.plugins@.skip(0) =~= self.plugins@);
        }
        while i < n
            invariant
                i <= n,
                dispatch_fold(self.plugins@, args0, render_module_content_hook::<P>())
                    == dispatch_fold(
                    self.plugins@.skip(i as int),
                    cur,
                    render_module_content_hook::<P>(),
                ),
            decreases n - i,
        {
            proof {
                lemma_skip_step(self.plugins@, i as int);
            }
            match self.plugins[i].render_module_content(cur) {
                Ok(a2) => {
                    cur = a2;
                },
                Err(e) => {
                    return Err(e);
                },
            }
            i = i + 1;
        }
        proof {
            assert(self.plugins@.skip(n as int) =~= Seq::<P>::empty());
        }
        Ok(cur)
    }

    /// Fold: the startup source is threaded through every plugin; one that
    /// answers a replacement hands it to the next, one that answers absence
    /// leaves it as it was. The folded source always comes back.
    #[verifier::loop_isolation(false)]
    pub fn render_startup(&self, args: RenderStartupArgs) -> (r: Result<Option<Source>, Error>)
        ensures
            match dispatch_fold(
                self.plugins@,
                args.source,
                render_startup_hook::<P>(args.chunk, args.module),
            ) {
                Result::Ok(s) => r == Result::<Option<Source>, Error>::Ok(Option::Some(s)),
                Result::Err(e) => r == Result::<Option<Source>, Error>::Err(e),
            },
    {
        let ghost args0 = args;
        let RenderStartupArgs { chunk, module, source } = args;
        let n: usize = self.plugins.len();
        let mut source = source;
        let mut i: usize = 0;
        proof {
            assert(self.plugins@.skip(0) =~= self.plugins@);
        }
        while i < n
            invariant
                i <= n,
                dispatch_fold(
                    self.plugins@,
                    args0.source,
                    render_startup_hook::<P>(args0.chunk, args0.module),
                ) == dispatch_fold(
                    self.plugins@.skip(i as int),
                    source,
                    render_startup_hook::<P>(args0.chunk, args0.module),
                ),
            decreases n - i,
        {
            proof {
                lemma_skip_step(self.plugins@, i as int);
            }
            let cur_args = RenderStartupArgs { chunk, module, source };
            match self.plugins[i].render_startup(&cur_args) {
                Ok(res) => {
                    let RenderStartupArgs { source: s_back, .. } = cur_args;
                    source = match res {
                        Some(s) => s,
                        None => s_back,
                    };
                },
                Err(e) => {
                    return Err(e);
                },
            }
            i = i + 1;
        }
        proof {
            assert(self.plugins@.skip(n as int) =~= Seq::<P>::empty());
        }
        Ok(Some(source))
    }

    /// Fold: the constructed module is threaded through every plugin, which
    /// may also adjust the creation data; the first error aborts the rest.
    #[verifier::loop_isolation(false)]
    pub fn normal_module_factory_module(
        &self,
        module: BoxModule,
        args: &mut NormalModuleCreateData,
    ) -> (r: Result<BoxModule, Error>)
        ensures
            match dispatch_fold(
                self.plugins@,
                (module, *old(args)),
                normal_module_factory_module_hook::<P>(),
            ) {
                Result::Ok(st) => r == Result::<BoxModule, Error>::Ok(st.0) && *final(args)
                    == st.1,
                Result::Err(e) => r == Result::<BoxModule, Error>::Err(e),
            },
    {
        let ghost st0 = (module, *args);
        proof {
            assert(st0 == (module, *old(args)));
        }
        let n: usize = self.plugins.len();
        let mut m = module;
        let mut i: usize = 0;
        proof {
            assert(self.plugins@.skip(0) =~= self.plugins@);
        }
        while i < n
            invariant
                i <= n,
                dispatch_fold(self.plugins@, st0, normal_module_factory_module_hook::<P>())
                    == dispatch_fold(
                    self.plugins@.skip(i as int),
                    (m, *args),
                    normal_module_factory_module_hook::<P>(),
                ),
            decreases n - i,
        {
            proof {
                lemma_skip_step(self.plugins@, i as int);
            }
            match self.plugins[i].normal_module_factory_module(m, args) {
                Ok(m2) => {
                    m = m2;
                },
                Err(e) => {
                    return Err(e);
                },
            }
            i = i + 1;
        }
        proof {
            assert(self.plugins@.skip(n as int) =~= Seq::<P>::empty());
        }
        Ok(m)
    }

    /// Fold with early stop: the resource data is threaded through every
    /// plugin; a plugin may signal that its value is final, skipping the
    /// remaining plugins entirely.
    #[verifier::loop_isolation(false)]
    pub fn normal_module_factory_resolve_for_scheme(&self, args: ResourceData) -> (r: Result<
        ResourceData,
        Error,
    >)
        ensures
            r == dispatch_fold_until(self.plugins@, args, resolve_for_scheme_hook::<P>()),
    {
        let ghost args0 = args;
        let n: usize = self.plugins.len();
        let mut cur = args;
        let mut i: usize = 0;
        proof {
            assert(self.plugins@.skip(0) =~= self.plugins@);
        }
        while i < n
            invariant
                i <= n,
                dispatch_fold_until(self.plugins@, args0, resolve_for_scheme_hook::<P>())
                    == dispatch_fold_until(
                    self.plugins@.skip(i as int),
                    cur,
                    resolve_for_scheme_hook::<P>(),
                ),
            decreases n - i,
        {
            proof {
                lemma_skip_step(self.plugins@, i as int);
            }
            match self.plugins[i].normal_module_factory_resolve_for_scheme(cur) {
                Ok((ret, stop)) => {
                    if stop {
                        return Ok(ret);
                    }
                    cur = ret;
                },
                Err(e) => {
                    return Err(e);
                },
            }
            i = i + 1;
        }
        proof {
            assert(self.plugins@.skip(n as int) =~= Seq::<P>::empty());
        }
        Ok(cur)
    }

    /// Collect-all over the digest map: every plugin may contribute the
    /// digest of one source type, later contributions for the same source
    /// type overwriting earlier ones; the first error aborts the rest.
    #[verifier::loop_isolation(false)]
    pub fn content_hash(&self, args: &ContentHashArgs) -> (r: Result<ChunkContentHash, Error>)
        ensures
            match (
                r,
                dispatch_fold(
                    self.plugins@,
                    Seq::<Option<String>>::empty(),
                    content_hash_hook::<P>(*args),
                ),
            ) {
                (Result::Ok(map), Result::Ok(m)) => map@ == m,
                (Result::Err(e), Result::Err(e2)) => e == e2,
                _ => false,
            },
    {
        let n: usize = self.plugins.len();
        let mut result: ChunkContentHash = VecMap::default();
        let mut i: usize = 0;
        proof {
            assert(self.plugins@.skip(0) =~= self.plugins@);
        }
        while i < n
            invariant
                i <= n,
                dispatch_fold(
                    self.plugins@,
                    Seq::<Option<String>>::empty(),
                    content_hash_hook::<P>(*args),
                ) == dispatch_fold(
                    self.plugins@.skip(i as int),
                    result@,
                    content_hash_hook::<P>(*args),
                ),
            decreases n - i,
        {
            proof {
                lemma_skip_step(self.plugins@, i as int);
            }
            match self.plugins[i].content_hash(args) {
                Ok(Some((source_type, digest))) => {
                    let code: usize = source_type.code();
                    result.insert(code, digest);
                },
                Ok(None) => {},
                Err(e) => {
                    return Err(e);
                },
            }
            i = i + 1;
        }
        proof {
            assert(self.plugins@.skip(n as int) =~= Seq::<P>::empty());
        }
        Ok(result)
    }

    /// Collect-all: every plugin may contribute generated files plus
    /// diagnostics; all contributions are concatenated in registration
    /// order, with no short-circuiting except on error.
    #[verifier::loop_isolation(false)]
    pub fn render_manifest(&self, args: RenderManifestArgs) -> (r: Result<
        RenderManifestOutput,
        Error,
    >)
        ensures
            match (r, dispatch_collect(self.plugins@, render_manifest_hook::<P>(args))) {
                (Result::Ok(out), Result::Ok(pair)) => out.assets@ == pair.0 && out.diagnostics@
                    == pair.1,
                (Result::Err(e), Result::Err(e2)) => e == e2,
                _ => false,
            },
    {
        let n: usize = self.plugins.len();
        let mut assets: Vec<RenderManifestEntry> = Vec::new();
        let mut diagnostics: Vec<Diagnostic> = Vec::new();
        let mut i: usize = 0;
        proof {
            assert(self.plugins@.skip(0) =~= self.plugins@);
            assert(Seq::<RenderManifestEntry>::empty() + Seq::<RenderManifestEntry>::empty()
                =~= Seq::<RenderManifestEntry>::empty());
        }
        while i < n
            invariant
                i <= n,
                match dispatch_collect(self.plugins@, render_manifest_hook::<P>(args)) {
                    Result::Ok(pair) => match dispatch_collect(
                        self.plugins@.skip(i as int),
                        render_manifest_hook::<P>(args),
                    ) {
                        Result::Ok(rest) => pair.0 == assets@ + rest.0 && pair.1 == diagnostics@
                            + rest.1,
                        Result::Err(_) => false,
                    },
                    Result::Err(e) => dispatch_collect(
                        self.plugins@.skip(i as int),
                        render_manifest_hook::<P>(args),
                    ) == Result::<(Seq<RenderManifestEntry>, Seq<Diagnostic>), Error>::Err(e),
                },
            decreases n - i,
        {
            proof {
                lemma_skip_step(self.plugins@, i as int);
            }
            match self.plugins[i].render_manifest(args) {
                Ok(res) => {
                    let (mut res_assets, mut res_diags) = res;
                    let ghost a0 = assets@;
                    let ghost d0 = diagnostics@;
                    let ghost xs1 = res_assets@;
                    let ghost ds1 = res_diags@;
                    assets.append(&mut res_assets);
                    diagnostics.append(&mut res_diags);
                    proof {
                        let tail = self.plugins@.skip(i as int + 1);
                        match dispatch_collect(tail, render_manifest_hook::<P>(args)) {
                            Result::Ok(rest2) => {
                                assert(a0 + (xs1 + rest2.0) =~= (a0 + xs1) + rest2.0);
                                assert(d0 + (ds1 + rest2.1) =~= (d0 + ds1) + rest2.1);
                            },
                            Result::Err(_) => {},
                        }
                    }
                },
                Err(e) => {
                    return Err(e);
                },
            }
            i = i + 1;
        }
        proof {
            assert(self.plugins@.skip(n as int) =~= Seq::<P>::empty());
            assert(assets@ + Seq::<RenderManifestEntry>::empty() =~= assets@);
            assert(diagnostics@ + Seq::<Diagnostic>::empty() =~= diagnostics@);
        }
        Ok(RenderManifestOutput { assets, diagnostics })
    }

    /// First-wins: the first plugin that resolves the loader request
    /// settles it; if none does, the result is absence, which the caller
    /// must handle explicitly.
    #[verifier::loop_isolation(false)]
    pub fn resolve_loader(
        &self,
        compiler_options: &CompilerOptions,
        context: &str,
        resolver: &Resolver,
        loader_request: &str,
        loader_options: Option<&str>,
    ) -> (r: Result<Option<BoxLoader>, Error>)
        ensures
            r == dispatch_first_wins(
                self.plugins@,
                resolve_loader_hook::<P>(
                    *compiler_options,
                    context@,
                    *resolver,
                    loader_request@,
                    opt_str_view(loader_options),
                ),
            ),
    {
        let n: usize = self.plugins.len();
        let mut i: usize = 0;
        proof {
            assert(self.plugins@.skip(0) =~= self.plugins@);
        }
        while i < n
            invariant
                i <= n,
                dispatch_first_wins(
                    self.plugins@,
                    resolve_loader_hook::<P>(
                        *compiler_options,
                        context@,
                        *resolver,
                        loader_request@,
                        opt_str_view(loader_options),
                    ),
                ) == dispatch_first_wins(
                    self.plugins@.skip(i as int),
                    resolve_loader_hook::<P>(
                        *compiler_options,
                        context@,
                        *resolver,
                        loader_request@,
                        opt_str_view(loader_options),
                    ),
                ),
            decreases n - i,
        {
            proof {
                lemma_skip_step(self.plugins@, i as int);
            }
            match self.plugins[i].resolve_loader(
                compiler_options,
                context,
                resolver,
                loader_request,
                loader_options,
            ) {
                Ok(Some(v)) => {
                    return Ok(Some(v));
                },
                Ok(None) => {},
                Err(e) => {
                    return Err(e);
                },
            }
            i = i + 1;
        }
        proof {
            assert(self.plugins@.skip(n as int) =~= Seq::<P>::empty());
        }
        Ok(None)
    }
}

} // verus!
