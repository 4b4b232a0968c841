use std::cell::RefCell;
use std::rc::Rc;

use bundler_core::module::ModuleIdentifier;
use bundler_core::plugin::AdditionalChunkRuntimeRequirementsArgs;
use bundler_core::plugin::AdditionalModuleRequirementsArgs;
use bundler_core::plugin::ApplyContext;
use bundler_core::plugin::AssetEmittedArgs;
use bundler_core::plugin::BeforeResolveArgs;
use bundler_core::plugin::BoxLoader;
use bundler_core::plugin::BoxModule;
use bundler_core::plugin::ChunkHashArgs;
use bundler_core::plugin::Compilation;
use bundler_core::plugin::CompilerOptions;
use bundler_core::plugin::Content;
use bundler_core::plugin::ContentHashArgs;
use bundler_core::plugin::Diagnostic;
use bundler_core::plugin::Error;
use bundler_core::plugin::FactorizeArgs;
use bundler_core::plugin::JsChunkHashArgs;
use bundler_core::plugin::Loader;
use bundler_core::plugin::LoaderContext;
use bundler_core::plugin::ModuleType;
use bundler_core::plugin::NormalModule;
use bundler_core::plugin::NormalModuleAfterResolveArgs;
use bundler_core::plugin::NormalModuleCreateData;
use bundler_core::plugin::ParserAndGeneratorBuilder;
use bundler_core::plugin::Plugin;
use bundler_core::plugin::RenderArgs;
use bundler_core::plugin::RenderChunkArgs;
use bundler_core::plugin::RenderManifestArgs;
use bundler_core::plugin::RenderManifestEntry;
use bundler_core::plugin::Resolver;
use bundler_core::plugin::ResolverFactory;
use bundler_core::plugin::ResourceData;
use bundler_core::plugin::RenderModuleContentArgs;
use bundler_core::plugin::RenderStartupArgs;
use bundler_core::plugin::RuntimeRequirementsInTreeArgs;
use bundler_core::plugin::Severity;
use bundler_core::plugin::Source;
use bundler_core::plugin::SourceType;
use bundler_core::plugin::Stats;
use bundler_core::plugin_driver::PluginDriver;
use vstd::prelude::Seq;

type Log = Rc<RefCell<Vec<String>>>;

/// A probe plugin with a call log and a handful of behaviour switches:
/// `claim` answers a present value on first-wins hooks, `fail` answers an
/// error on every hook, `transform` rewrites the threaded state, `stop`
/// ends the scheme-resolution fold, `contribute` adds collect-all output.
#[derive(Clone)]
struct Probe {
    id: usize,
    log: Log,
    claim: bool,
    fail: bool,
    fail_setup: bool,
    transform: bool,
    stop: bool,
    contribute: bool,
}

fn probe(id: usize, log: &Log) -> Probe {
    Probe {
        id,
        log: Rc::clone(log),
        claim: false,
        fail: false,
        fail_setup: false,
        transform: false,
        stop: false,
        contribute: false,
    }
}

fn claiming(id: usize, log: &Log) -> Probe {
    Probe { claim: true, ..probe(id, log) }
}

fn failing(id: usize, log: &Log) -> Probe {
    Probe { fail: true, ..probe(id, log) }
}

fn failing_setup(id: usize, log: &Log) -> Probe {
    Probe { fail_setup: true, ..probe(id, log) }
}

fn transforming(id: usize, log: &Log) -> Probe {
    Probe { transform: true, ..probe(id, log) }
}

impl Probe {
    fn note(&self, hook: &str) {
        self.log.borrow_mut().push(format!("{}:{}", hook, self.id));
    }

    fn err(&self) -> Error {
        Error { message: format!("fail:{}", self.id) }
    }

    fn checked(&self, hook: &str) -> Result<(), Error> {
        self.note(hook);
        if self.fail {
            Err(self.err())
        } else {
            Ok(())
        }
    }

    fn tag(&self, hook: &str) -> String {
        format!("{}:{}", hook, self.id)
    }
}

impl Plugin for Probe {
    // The specification twins below are ghost in verified builds and are
    // never executed; the compiled trait still declares them, so each is
    // stubbed out.

    fn spec_apply(&self, _registry: Seq<Option<ParserAndGeneratorBuilder>>, _options: CompilerOptions) -> Result<(Seq<Option<ParserAndGeneratorBuilder>>, CompilerOptions), Error> {
        unreachable!()
    }

    fn spec_read_resource(&self, _resource_data: ResourceData) -> Result<Option<Content>, Error> {
        unreachable!()
    }

    fn spec_module_asset(&self, _module: ModuleIdentifier, _asset_name: Seq<char>) -> Result<(), Error> {
        unreachable!()
    }

    fn spec_content_hash(&self, _args: ContentHashArgs) -> Result<Option<(SourceType, String)>, Error> {
        unreachable!()
    }

    fn spec_chunk_hash(&self, _args: ChunkHashArgs) -> Result<ChunkHashArgs, Error> {
        unreachable!()
    }

    fn spec_render_manifest(&self, _args: RenderManifestArgs) -> Result<(Vec<RenderManifestEntry>, Vec<Diagnostic>), Error> {
        unreachable!()
    }

    fn spec_render_chunk(&self, _args: RenderChunkArgs) -> Result<Option<Source>, Error> {
        unreachable!()
    }

    fn spec_render(&self, _args: RenderArgs) -> Result<Option<Source>, Error> {
        unreachable!()
    }

    fn spec_render_startup(&self, _args: RenderStartupArgs) -> Result<Option<Source>, Error> {
        unreachable!()
    }

    fn spec_js_chunk_hash(&self, _args: JsChunkHashArgs) -> Result<JsChunkHashArgs, Error> {
        unreachable!()
    }

    fn spec_render_module_content(&self, _args: RenderModuleContentArgs) -> Result<RenderModuleContentArgs, Error> {
        unreachable!()
    }

    fn spec_factorize(&self, _args: FactorizeArgs) -> Result<(FactorizeArgs, Option<BoxModule>), Error> {
        unreachable!()
    }

    fn spec_normal_module_factory_create_module(&self, _args: NormalModuleCreateData) -> Result<(NormalModuleCreateData, Option<BoxModule>), Error> {
        unreachable!()
    }

    fn spec_normal_module_factory_module(&self, _module: BoxModule, _args: NormalModuleCreateData) -> Result<(BoxModule, NormalModuleCreateData), Error> {
        unreachable!()
    }

    fn spec_normal_module_loader(&self, _loader_context: LoaderContext, _module: NormalModule) -> Result<LoaderContext, Error> {
        unreachable!()
    }

    fn spec_after_resolve(&self, _args: NormalModuleAfterResolveArgs) -> Result<(NormalModuleAfterResolveArgs, Option<bool>), Error> {
        unreachable!()
    }

    fn spec_context_module_before_resolve(&self, _args: BeforeResolveArgs) -> Result<(BeforeResolveArgs, Option<bool>), Error> {
        unreachable!()
    }

    fn spec_context_module_after_resolve(&self, _args: NormalModuleAfterResolveArgs) -> Result<(NormalModuleAfterResolveArgs, Option<bool>), Error> {
        unreachable!()
    }

    fn spec_normal_module_factory_resolve_for_scheme(&self, _args: ResourceData) -> Result<(ResourceData, bool), Error> {
        unreachable!()
    }

    fn spec_additional_chunk_runtime_requirements(&self, _args: AdditionalChunkRuntimeRequirementsArgs) -> Result<AdditionalChunkRuntimeRequirementsArgs, Error> {
        unreachable!()
    }

    fn spec_additional_tree_runtime_requirements(&self, _args: AdditionalChunkRuntimeRequirementsArgs) -> Result<AdditionalChunkRuntimeRequirementsArgs, Error> {
        unreachable!()
    }

    fn spec_runtime_requirements_in_module(&self, _args: AdditionalModuleRequirementsArgs) -> Result<AdditionalModuleRequirementsArgs, Error> {
        unreachable!()
    }

    fn spec_runtime_requirements_in_tree(&self, _args: RuntimeRequirementsInTreeArgs) -> Result<RuntimeRequirementsInTreeArgs, Error> {
        unreachable!()
    }

    fn spec_after_process_assets(&self, _compilation: Compilation) -> Result<Compilation, Error> {
        unreachable!()
    }

    fn spec_done(&self, _stats: Stats) -> Result<Stats, Error> {
        unreachable!()
    }

    fn spec_optimize_chunks(&self, _compilation: Compilation) -> Result<Compilation, Error> {
        unreachable!()
    }

    fn spec_optimize_modules(&self, _compilation: Compilation) -> Result<Compilation, Error> {
        unreachable!()
    }

    fn spec_after_optimize_modules(&self, _compilation: Compilation) -> Result<Compilation, Error> {
        unreachable!()
    }

    fn spec_optimize_dependencies(&self, _compilation: Compilation) -> Result<(Compilation, Option<()>), Error> {
        unreachable!()
    }

    fn spec_optimize_code_generation(&self, _compilation: Compilation) -> Result<(Compilation, Option<()>), Error> {
        unreachable!()
    }

    fn spec_optimize_tree(&self, _compilation: Compilation) -> Result<Compilation, Error> {
        unreachable!()
    }

    fn spec_optimize_chunk_modules(&self, _compilation: Compilation) -> Result<Compilation, Error> {
        unreachable!()
    }

    fn spec_resolve_loader(&self, _compiler_options: CompilerOptions, _context: Seq<char>, _resolver: Resolver, _loader_request: Seq<char>, _loader_options: Option<Seq<char>>) -> Result<Option<BoxLoader>, Error> {
        unreachable!()
    }

    fn spec_before_loaders(&self, _module: NormalModule) -> Result<NormalModule, Error> {
        unreachable!()
    }

    fn spec_module_ids(&self, _compilation: Compilation) -> Result<Compilation, Error> {
        unreachable!()
    }

    fn spec_chunk_ids(&self, _compilation: Compilation) -> Result<Compilation, Error> {
        unreachable!()
    }

    fn spec_emit(&self, _compilation: Compilation) -> Result<Compilation, Error> {
        unreachable!()
    }

    fn spec_asset_emitted(&self, _args: AssetEmittedArgs) -> Result<(), Error> {
        unreachable!()
    }

    fn spec_after_emit(&self, _compilation: Compilation) -> Result<Compilation, Error> {
        unreachable!()
    }

    fn spec_seal(&self, _compilation: Compilation) -> Result<Compilation, Error> {
        unreachable!()
    }
    fn name(&self) -> &'static str {
        "probe"
    }

    fn apply(&self, ctx: &mut ApplyContext, options: &mut CompilerOptions) -> Result<(), Error> {
        self.note("apply");
        if self.fail_setup {
            return Err(self.err());
        }
        if self.transform {
            options.context = self.tag("ctx");
            ctx.registered_parser_and_generator_builder
                .insert(ModuleType::Js.code(), ParserAndGeneratorBuilder { name: self.tag("b") });
        }
        Ok(())
    }

    fn read_resource(&self, _resource_data: &ResourceData) -> Result<Option<Content>, Error> {
        self.checked("read_resource")?;
        if self.claim {
            Ok(Some(Content::Text(self.tag("content"))))
        } else {
            Ok(None)
        }
    }

    fn module_asset(&self, _module: ModuleIdentifier, _asset_name: &str) -> Result<(), Error> {
        self.checked("module_asset")
    }

    fn content_hash(&self, _args: &ContentHashArgs) -> Result<Option<(SourceType, String)>, Error> {
        self.checked("content_hash")?;
        if self.claim {
            Ok(Some((SourceType::JavaScript, self.tag("digest"))))
        } else {
            Ok(None)
        }
    }

    fn chunk_hash(&self, args: &mut ChunkHashArgs) -> Result<(), Error> {
        self.checked("chunk_hash")?;
        if self.transform {
            args.hash = args.hash * 10 + self.id as u64 + 1;
        }
        Ok(())
    }

    fn render_manifest(
        &self,
        _args: RenderManifestArgs,
    ) -> Result<(Vec<RenderManifestEntry>, Vec<Diagnostic>), Error> {
        self.checked("render_manifest")?;
        if self.contribute {
            Ok((
                vec![RenderManifestEntry {
                    filename: self.tag("f"),
                    source: Source { text: self.tag("s") },
                }],
                vec![Diagnostic { severity: Severity::Warn, message: self.tag("d") }],
            ))
        } else {
            Ok((vec![], vec![]))
        }
    }

    fn render_chunk(&self, _args: &RenderChunkArgs) -> Result<Option<Source>, Error> {
        self.checked("render_chunk")?;
        if self.claim {
            Ok(Some(Source { text: self.tag("render_chunk") }))
        } else {
            Ok(None)
        }
    }

    fn render(&self, _args: &RenderArgs) -> Result<Option<Source>, Error> {
        self.checked("render")?;
        if self.claim {
            Ok(Some(Source { text: self.tag("render") }))
        } else {
            Ok(None)
        }
    }

    fn render_startup(&self, args: &RenderStartupArgs) -> Result<Option<Source>, Error> {
        // record the value this plugin received, to observe the fold order
        self.log
            .borrow_mut()
            .push(format!("render_startup:{}:{}", self.id, args.source.text));
        if self.fail {
            return Err(self.err());
        }
        if self.transform {
            Ok(Some(Source { text: format!("{}+{}", args.source.text, self.id) }))
        } else {
            Ok(None)
        }
    }

    fn js_chunk_hash(&self, args: &mut JsChunkHashArgs) -> Result<(), Error> {
        self.checked("js_chunk_hash")?;
        if self.transform {
            args.hash = args.hash * 10 + self.id as u64 + 1;
        }
        Ok(())
    }

    fn render_module_content(
        &self,
        args: RenderModuleContentArgs,
    ) -> Result<RenderModuleContentArgs, Error> {
        self.checked("render_module_content")?;
        let mut args = args;
        if self.transform {
            args.module_source.text = format!("{}+{}", args.module_source.text, self.id);
        }
        Ok(args)
    }

    fn factorize(&self, args: &mut FactorizeArgs) -> Result<Option<BoxModule>, Error> {
        self.checked("factorize")?;
        if self.transform {
            args.request = format!("{}+{}", args.request, self.id);
        }
        if self.claim {
            Ok(Some(Box::new(NormalModule {
                identifier: ModuleIdentifier(self.id),
                request: args.request.clone(),
            })))
        } else {
            Ok(None)
        }
    }

    fn normal_module_factory_create_module(
        &self,
        args: &mut NormalModuleCreateData,
    ) -> Result<Option<BoxModule>, Error> {
        self.checked("normal_module_factory_create_module")?;
        if self.claim {
            Ok(Some(Box::new(NormalModule {
                identifier: ModuleIdentifier(self.id),
                request: args.raw_request.clone(),
            })))
        } else {
            Ok(None)
        }
    }

    fn normal_module_factory_module(
        &self,
        module: BoxModule,
        _args: &mut NormalModuleCreateData,
    ) -> Result<BoxModule, Error> {
        self.checked("normal_module_factory_module")?;
        let mut module = module;
        if self.transform {
            module.request = format!("{}+{}", module.request, self.id);
        }
        Ok(module)
    }

    fn normal_module_loader(
        &self,
        loader_context: &mut LoaderContext,
        _module: &NormalModule,
    ) -> Result<(), Error> {
        self.checked("normal_module_loader")?;
        if self.transform {
            loader_context.content = Some(Content::Text(self.tag("loaded")));
        }
        Ok(())
    }

    fn after_resolve(&self, _args: &mut NormalModuleAfterResolveArgs) -> Result<Option<bool>, Error> {
        self.checked("after_resolve")?;
        if self.claim {
            Ok(Some(true))
        } else {
            Ok(None)
        }
    }

    fn context_module_before_resolve(
        &self,
        _args: &mut BeforeResolveArgs,
    ) -> Result<Option<bool>, Error> {
        self.checked("context_module_before_resolve")?;
        if self.claim {
            Ok(Some(false))
        } else {
            Ok(None)
        }
    }

    fn context_module_after_resolve(
        &self,
        _args: &mut NormalModuleAfterResolveArgs,
    ) -> Result<Option<bool>, Error> {
        self.checked("context_module_after_resolve")?;
        if self.claim {
            Ok(Some(true))
        } else {
            Ok(None)
        }
    }

    fn normal_module_factory_resolve_for_scheme(
        &self,
        args: ResourceData,
    ) -> Result<(ResourceData, bool), Error> {
        self.checked("resolve_for_scheme")?;
        let mut args = args;
        if self.transform {
            args.resource = format!("{}+{}", args.resource, self.id);
        }
        Ok((args, self.stop))
    }

    fn additional_chunk_runtime_requirements(
        &self,
        args: &mut AdditionalChunkRuntimeRequirementsArgs,
    ) -> Result<(), Error> {
        self.checked("additional_chunk_runtime_requirements")?;
        if self.transform {
            args.runtime_requirements |= 1 << self.id;
        }
        Ok(())
    }

    fn additional_tree_runtime_requirements(
        &self,
        args: &mut AdditionalChunkRuntimeRequirementsArgs,
    ) -> Result<(), Error> {
        self.checked("additional_tree_runtime_requirements")?;
        if self.transform {
            args.runtime_requirements |= 1 << self.id;
        }
        Ok(())
    }

    fn runtime_requirements_in_module(
        &self,
        args: &mut AdditionalModuleRequirementsArgs,
    ) -> Result<(), Error> {
        self.checked("runtime_requirements_in_module")?;
        if self.transform {
            args.runtime_requirements |= 1 << self.id;
        }
        Ok(())
    }

    fn runtime_requirements_in_tree(
        &self,
        args: &mut RuntimeRequirementsInTreeArgs,
    ) -> Result<(), Error> {
        self.checked("runtime_requirements_in_tree")?;
        if self.transform {
            args.runtime_requirements |= 1 << self.id;
        }
        Ok(())
    }

    fn after_process_assets(&self, compilation: &mut Compilation) -> Result<(), Error> {
        self.checked("after_process_assets")?;
        if self.transform {
            compilation.hash = Some(self.tag("after_process_assets"));
        }
        Ok(())
    }

    fn done(&self, stats: &mut Stats) -> Result<(), Error> {
        self.checked("done")?;
        if self.transform {
            stats.hash = Some(self.tag("done"));
        }
        Ok(())
    }

    fn optimize_chunks(&self, compilation: &mut Compilation) -> Result<(), Error> {
        self.checked("optimize_chunks")?;
        if self.transform {
            compilation.hash = Some(self.tag("optimize_chunks"));
        }
        Ok(())
    }

    fn optimize_modules(&self, compilation: &mut Compilation) -> Result<(), Error> {
        self.checked("optimize_modules")?;
        if self.transform {
            compilation.hash = Some(self.tag("optimize_modules"));
        }
        Ok(())
    }

    fn after_optimize_modules(&self, compilation: &mut Compilation) -> Result<(), Error> {
        self.checked("after_optimize_modules")?;
        if self.transform {
            compilation.hash = Some(self.tag("after_optimize_modules"));
        }
        Ok(())
    }

    fn optimize_dependencies(&self, compilation: &mut Compilation) -> Result<Option<()>, Error> {
        self.checked("optimize_dependencies")?;
        if self.transform {
            compilation.hash = Some(self.tag("optimize_dependencies"));
        }
        if self.claim {
            Ok(Some(()))
        } else {
            Ok(None)
        }
    }

    fn optimize_code_generation(&self, compilation: &mut Compilation) -> Result<Option<()>, Error> {
        self.checked("optimize_code_generation")?;
        if self.transform {
            compilation.hash = Some(self.tag("optimize_code_generation"));
        }
        if self.claim {
            Ok(Some(()))
        } else {
            Ok(None)
        }
    }

    fn optimize_tree(&self, compilation: &mut Compilation) -> Result<(), Error> {
        self.checked("optimize_tree")?;
        if self.transform {
            compilation.hash = Some(self.tag("optimize_tree"));
        }
        Ok(())
    }

    fn optimize_chunk_modules(&self, compilation: &mut Compilation) -> Result<(), Error> {
        self.checked("optimize_chunk_modules")?;
        if self.transform {
            compilation.hash = Some(self.tag("optimize_chunk_modules"));
        }
        Ok(())
    }

    fn resolve_loader(
        &self,
        _compiler_options: &CompilerOptions,
        _context: &str,
        _resolver: &Resolver,
        loader_request: &str,
        _loader_options: Option<&str>,
    ) -> Result<Option<BoxLoader>, Error> {
        self.checked("resolve_loader")?;
        if self.claim {
            Ok(Some(Box::new(Loader { request: format!("{}@{}", loader_request, self.id) })))
        } else {
            Ok(None)
        }
    }

    fn before_loaders(&self, module: &mut NormalModule) -> Result<(), Error> {
        self.checked("before_loaders")?;
        if self.transform {
            module.request = format!("{}+{}", module.request, self.id);
        }
        Ok(())
    }

    fn module_ids(&self, compilation: &mut Compilation) -> Result<(), Error> {
        self.checked("module_ids")?;
        if self.transform {
            compilation.hash = Some(self.tag("module_ids"));
        }
        Ok(())
    }

    fn chunk_ids(&self, compilation: &mut Compilation) -> Result<(), Error> {
        self.checked("chunk_ids")?;
        if self.transform {
            compilation.hash = Some(self.tag("chunk_ids"));
        }
        Ok(())
    }

    fn emit(&self, compilation: &mut Compilation) -> Result<(), Error> {
        self.checked("emit")?;
        if self.transform {
            compilation.hash = Some(self.tag("emit"));
        }
        Ok(())
    }

    fn asset_emitted(&self, _args: &AssetEmittedArgs) -> Result<(), Error> {
        self.checked("asset_emitted")
    }

    fn after_emit(&self, compilation: &mut Compilation) -> Result<(), Error> {
        self.checked("after_emit")?;
        if self.transform {
            compilation.hash = Some(self.tag("after_emit"));
        }
        Ok(())
    }

    fn seal(&self, compilation: &mut Compilation) -> Result<(), Error> {
        self.checked("seal")?;
        if self.transform {
            compilation.hash = Some(self.tag("seal"));
        }
        Ok(())
    }
}

fn options() -> CompilerOptions {
    CompilerOptions { context: String::from("/project"), bail: false }
}

fn driver(plugins: Vec<Probe>) -> PluginDriver<Probe> {
    PluginDriver::new(options(), plugins, ResolverFactory {}).unwrap()
}

fn compilation() -> Compilation {
    Compilation { assets: vec![], hash: None }
}

#[test]
fn driver_setup_runs_in_order_and_last_write_wins() {
    let log: Log = Rc::new(RefCell::new(vec![]));
    let d = driver(vec![transforming(0, &log), transforming(1, &log)]);
    assert_eq!(*log.borrow(), vec!["apply:0", "apply:1"]);
    // conflicting configuration writes: the last plugin in registration
    // order wins
    assert_eq!(d.options.context, "ctx:1");
    assert_eq!(
        d.registered_parser_and_generator_builder.try_get(ModuleType::Js.code()),
        Some(&ParserAndGeneratorBuilder { name: String::from("b:1") })
    );
    assert!(d.diagnostics.is_empty());
}

#[test]
fn driver_setup_failure_aborts_construction() {
    let log: Log = Rc::new(RefCell::new(vec![]));
    let r = PluginDriver::new(
        options(),
        vec![probe(0, &log), failing_setup(1, &log), probe(2, &log)],
        ResolverFactory {},
    );
    match r {
        Err(e) => assert_eq!(e.message, "fail:1"),
        Ok(_) => panic!("expected the setup failure to abort construction"),
    }
    assert_eq!(*log.borrow(), vec!["apply:0", "apply:1"]);
}

#[test]
fn driver_take_diagnostic_drains_atomically() {
    let log: Log = Rc::new(RefCell::new(vec![]));
    let mut d = driver(vec![probe(0, &log)]);
    d.diagnostics.push(Diagnostic { severity: Severity::Error, message: String::from("bad") });
    d.diagnostics.push(Diagnostic { severity: Severity::Warn, message: String::from("meh") });
    let taken = d.take_diagnostic();
    assert_eq!(taken.len(), 2);
    assert_eq!(taken[0].message, "bad");
    assert_eq!(taken[1].message, "meh");
    assert!(d.diagnostics.is_empty());
    assert!(d.take_diagnostic().is_empty());
}

#[test]
fn driver_first_wins_never_invokes_later_plugins() {
    let log: Log = Rc::new(RefCell::new(vec![]));
    let d = driver(vec![probe(0, &log), claiming(1, &log), claiming(2, &log)]);
    log.borrow_mut().clear();
    let r = d
        .render_chunk(RenderChunkArgs { chunk: 7, source: Source { text: String::new() } })
        .unwrap();
    assert_eq!(r, Some(Source { text: String::from("render_chunk:1") }));
    // the plugin after the winner was never invoked
    assert_eq!(*log.borrow(), vec!["render_chunk:0", "render_chunk:1"]);
}

#[test]
fn driver_first_wins_absence_when_no_plugin_claims() {
    let log: Log = Rc::new(RefCell::new(vec![]));
    let d = driver(vec![probe(0, &log), probe(1, &log)]);
    log.borrow_mut().clear();
    let r = d.read_resource(&ResourceData {
        resource: String::from("a.js"),
        scheme: String::from("file"),
    });
    assert_eq!(r, Ok(None));
    assert_eq!(*log.borrow(), vec!["read_resource:0", "read_resource:1"]);
}

#[test]
fn driver_fold_passes_transformed_value_to_next_plugin() {
    let log: Log = Rc::new(RefCell::new(vec![]));
    let d = driver(vec![transforming(0, &log), transforming(1, &log)]);
    log.borrow_mut().clear();
    let r = d
        .render_startup(RenderStartupArgs {
            chunk: 1,
            module: ModuleIdentifier(0),
            source: Source { text: String::from("start") },
        })
        .unwrap();
    // the second plugin received the first one's transformed value, not the
    // original
    assert_eq!(
        *log.borrow(),
        vec!["render_startup:0:start", "render_startup:1:start+0"]
    );
    assert_eq!(r, Some(Source { text: String::from("start+0+1") }));
}

#[test]
fn driver_broadcast_runs_all_plugins_in_registration_order() {
    let log: Log = Rc::new(RefCell::new(vec![]));
    let d = driver(vec![probe(0, &log), probe(1, &log), probe(2, &log)]);
    log.borrow_mut().clear();
    let mut c = compilation();
    assert_eq!(d.emit(&mut c), Ok(()));
    assert_eq!(*log.borrow(), vec!["emit:0", "emit:1", "emit:2"]);
}

#[test]
fn driver_broadcast_stops_at_first_error() {
    let log: Log = Rc::new(RefCell::new(vec![]));
    let d = driver(vec![probe(0, &log), failing(1, &log), probe(2, &log)]);
    log.borrow_mut().clear();
    let mut c = compilation();
    let r = d.emit(&mut c);
    assert_eq!(r.unwrap_err().message, "fail:1");
    // the plugin after the failing one was left uninvoked
    assert_eq!(*log.borrow(), vec!["emit:0", "emit:1"]);
}

#[test]
fn driver_content_hash_collects_with_overwrite() {
    let log: Log = Rc::new(RefCell::new(vec![]));
    let d = driver(vec![claiming(0, &log), probe(1, &log), claiming(2, &log)]);
    log.borrow_mut().clear();
    let map = d.content_hash(&ContentHashArgs { chunk: 3 }).unwrap();
    // both contributions hit the same source type: the later one wins
    assert_eq!(
        map.try_get(SourceType::JavaScript.code()),
        Some(&String::from("digest:2"))
    );
    assert!(map.try_get(SourceType::Css.code()).is_none());
    assert_eq!(
        *log.borrow(),
        vec!["content_hash:0", "content_hash:1", "content_hash:2"]
    );
}

#[test]
fn driver_render_manifest_merges_assets_and_diagnostics() {
    let log: Log = Rc::new(RefCell::new(vec![]));
    let mut contributing0 = probe(0, &log);
    contributing0.contribute = true;
    let mut contributing2 = probe(2, &log);
    contributing2.contribute = true;
    let d = driver(vec![contributing0, probe(1, &log), contributing2]);
    log.borrow_mut().clear();
    let out = d.render_manifest(RenderManifestArgs { chunk: 5 }).unwrap();
    assert_eq!(out.assets.len(), 2);
    assert_eq!(out.assets[0].filename, "f:0");
    assert_eq!(out.assets[1].filename, "f:2");
    assert_eq!(out.diagnostics.len(), 2);
    assert_eq!(out.diagnostics[0].message, "d:0");
    assert_eq!(out.diagnostics[1].message, "d:2");
    // collect-all never short-circuits on absence
    assert_eq!(
        *log.borrow(),
        vec!["render_manifest:0", "render_manifest:1", "render_manifest:2"]
    );
}

#[test]
fn driver_scheme_resolution_stop_skips_remaining_plugins() {
    let log: Log = Rc::new(RefCell::new(vec![]));
    let mut stopper = transforming(1, &log);
    stopper.stop = true;
    let d = driver(vec![transforming(0, &log), stopper, transforming(2, &log)]);
    log.borrow_mut().clear();
    let r = d
        .normal_module_factory_resolve_for_scheme(ResourceData {
            resource: String::from("res"),
            scheme: String::from("data"),
        })
        .unwrap();
    // the stopping plugin still supplies the final value; the rest are
    // skipped entirely
    assert_eq!(r.resource, "res+0+1");
    assert_eq!(*log.borrow(), vec!["resolve_for_scheme:0", "resolve_for_scheme:1"]);
}

#[test]
fn driver_factorize_threads_args_until_winner() {
    let log: Log = Rc::new(RefCell::new(vec![]));
    let mut winner = claiming(1, &log);
    winner.transform = true;
    let d = driver(vec![transforming(0, &log), winner, transforming(2, &log)]);
    log.borrow_mut().clear();
    let mut args = FactorizeArgs {
        context: String::from("/project"),
        request: String::from("req"),
    };
    let m = d.factorize(&mut args).unwrap().unwrap();
    assert_eq!(m.identifier, ModuleIdentifier(1));
    assert_eq!(m.request, "req+0+1");
    assert_eq!(args.request, "req+0+1");
    assert_eq!(*log.borrow(), vec!["factorize:0", "factorize:1"]);
}

#[test]
fn driver_runtime_requirements_accumulate_over_all_plugins() {
    let log: Log = Rc::new(RefCell::new(vec![]));
    let d = driver(vec![
        transforming(0, &log),
        transforming(1, &log),
        transforming(2, &log),
    ]);
    let mut args = AdditionalChunkRuntimeRequirementsArgs { chunk: 0, runtime_requirements: 0 };
    d.additional_chunk_runtime_requirements(&mut args).unwrap();
    assert_eq!(args.runtime_requirements, 0b111);
    let mut tree = RuntimeRequirementsInTreeArgs { chunk: 0, runtime_requirements: 0b1000 };
    d.runtime_requirements_in_tree(&mut tree).unwrap();
    assert_eq!(tree.runtime_requirements, 0b1111);
    let mut module_args = AdditionalModuleRequirementsArgs {
        module: ModuleIdentifier(1),
        runtime_requirements: 0,
    };
    d.runtime_requirement_in_module(&mut module_args).unwrap();
    assert_eq!(module_args.runtime_requirements, 0b111);
}

#[test]
fn driver_chunk_hash_folds_in_order() {
    let log: Log = Rc::new(RefCell::new(vec![]));
    let d = driver(vec![transforming(0, &log), transforming(1, &log)]);
    let mut args = ChunkHashArgs { chunk: 0, hash: 0 };
    d.chunk_hash(&mut args).unwrap();
    // first plugin appends 1, second appends 2: order is observable
    assert_eq!(args.hash, 12);
    let mut js = JsChunkHashArgs { chunk: 0, hash: 0 };
    d.js_chunk_hash(&mut js).unwrap();
    assert_eq!(js.hash, 12);
}

#[test]
fn driver_render_module_content_folds_by_value() {
    let log: Log = Rc::new(RefCell::new(vec![]));
    let d = driver(vec![transforming(0, &log), probe(1, &log), transforming(2, &log)]);
    let out = d
        .render_module_content(RenderModuleContentArgs {
            module: ModuleIdentifier(0),
            module_source: Source { text: String::from("m") },
        })
        .unwrap();
    assert_eq!(out.module_source.text, "m+0+2");
}

#[test]
fn driver_normal_module_factory_module_threads_module() {
    let log: Log = Rc::new(RefCell::new(vec![]));
    let d = driver(vec![transforming(0, &log), transforming(1, &log)]);
    let mut data = NormalModuleCreateData {
        context: String::from("/project"),
        raw_request: String::from("raw"),
    };
    let module = Box::new(NormalModule {
        identifier: ModuleIdentifier(9),
        request: String::from("m"),
    });
    let out = d.normal_module_factory_module(module, &mut data).unwrap();
    assert_eq!(out.request, "m+0+1");
}

#[test]
fn driver_resolution_hooks_first_wins() {
    let log: Log = Rc::new(RefCell::new(vec![]));
    let d = driver(vec![probe(0, &log), claiming(1, &log), probe(2, &log)]);
    log.borrow_mut().clear();
    let mut after = NormalModuleAfterResolveArgs {
        request: String::from("r"),
        context: String::from("/c"),
    };
    assert_eq!(d.after_resolve(&mut after), Ok(Some(true)));
    let mut before = BeforeResolveArgs { request: String::from("r"), context: String::from("/c") };
    assert_eq!(d.context_module_before_resolve(&mut before), Ok(Some(false)));
    assert_eq!(d.context_module_after_resolve(&mut after), Ok(Some(true)));
    let mut create = NormalModuleCreateData {
        context: String::from("/c"),
        raw_request: String::from("raw"),
    };
    let created = d.normal_module_factory_create_module(&mut create).unwrap().unwrap();
    assert_eq!(created.identifier, ModuleIdentifier(1));
    assert_eq!(
        *log.borrow(),
        vec![
            "after_resolve:0",
            "after_resolve:1",
            "context_module_before_resolve:0",
            "context_module_before_resolve:1",
            "context_module_after_resolve:0",
            "context_module_after_resolve:1",
            "normal_module_factory_create_module:0",
            "normal_module_factory_create_module:1",
        ]
    );
}

#[test]
fn driver_resolve_loader_first_wins() {
    let log: Log = Rc::new(RefCell::new(vec![]));
    let d = driver(vec![probe(0, &log), claiming(1, &log)]);
    let opts = options();
    let loader = d
        .resolve_loader(&opts, "/project", &Resolver {}, "style-loader", None)
        .unwrap()
        .unwrap();
    assert_eq!(loader.request, "style-loader@1");
}

#[test]
fn driver_optimize_passes_first_wins_and_broadcast() {
    let log: Log = Rc::new(RefCell::new(vec![]));
    let d = driver(vec![probe(0, &log), claiming(1, &log), probe(2, &log)]);
    log.borrow_mut().clear();
    let mut c = compilation();
    assert_eq!(d.optimize_dependencies(&mut c), Ok(Some(())));
    assert_eq!(d.optimize_code_generation(&mut c), Ok(Some(())));
    assert_eq!(d.optimize_chunks(&mut c), Ok(()));
    assert_eq!(d.optimize_modules(&mut c), Ok(()));
    assert_eq!(d.after_optimize_modules(&mut c), Ok(()));
    assert_eq!(d.optimize_tree(&mut c), Ok(()));
    assert_eq!(d.optimize_chunk_modules(&mut c), Ok(()));
    assert_eq!(
        *log.borrow(),
        vec![
            "optimize_dependencies:0",
            "optimize_dependencies:1",
            "optimize_code_generation:0",
            "optimize_code_generation:1",
            "optimize_chunks:0",
            "optimize_chunks:1",
            "optimize_chunks:2",
            "optimize_modules:0",
            "optimize_modules:1",
            "optimize_modules:2",
            "after_optimize_modules:0",
            "after_optimize_modules:1",
            "after_optimize_modules:2",
            "optimize_tree:0",
            "optimize_tree:1",
            "optimize_tree:2",
            "optimize_chunk_modules:0",
            "optimize_chunk_modules:1",
            "optimize_chunk_modules:2",
        ]
    );
}

#[test]
fn driver_notification_hooks_broadcast_to_all() {
    let log: Log = Rc::new(RefCell::new(vec![]));
    let d = driver(vec![transforming(0, &log), transforming(1, &log)]);
    log.borrow_mut().clear();
    assert_eq!(d.module_asset(ModuleIdentifier(4), String::from("a.css")), Ok(()));
    assert_eq!(d.asset_emitted(&AssetEmittedArgs { filename: String::from("out.js") }), Ok(()));
    let mut c = compilation();
    assert_eq!(d.after_process_assets(&mut c), Ok(()));
    assert_eq!(c.hash, Some(String::from("after_process_assets:1")));
    assert_eq!(d.module_ids(&mut c), Ok(()));
    assert_eq!(d.chunk_ids(&mut c), Ok(()));
    assert_eq!(d.after_emit(&mut c), Ok(()));
    assert_eq!(d.seal(&mut c), Ok(()));
    let mut stats = Stats { hash: None };
    assert_eq!(d.done(&mut stats), Ok(()));
    assert_eq!(stats.hash, Some(String::from("done:1")));
    let mut module = NormalModule { identifier: ModuleIdentifier(0), request: String::from("m") };
    assert_eq!(d.before_loaders(&mut module), Ok(()));
    assert_eq!(module.request, "m+0+1");
    let mut loader_context = LoaderContext { resource: String::from("m"), content: None };
    assert_eq!(d.normal_module_loader(&mut loader_context, &module), Ok(()));
    assert_eq!(loader_context.content, Some(Content::Text(String::from("loaded:1"))));
    assert_eq!(
        *log.borrow(),
        vec![
            "module_asset:0",
            "module_asset:1",
            "asset_emitted:0",
            "asset_emitted:1",
            "after_process_assets:0",
            "after_process_assets:1",
            "module_ids:0",
            "module_ids:1",
            "chunk_ids:0",
            "chunk_ids:1",
            "after_emit:0",
            "after_emit:1",
            "seal:0",
            "seal:1",
            "done:0",
            "done:1",
            "before_loaders:0",
            "before_loaders:1",
            "normal_module_loader:0",
            "normal_module_loader:1",
        ]
    );
}

#[test]
fn driver_render_first_wins_and_fold_error() {
    let log: Log = Rc::new(RefCell::new(vec![]));
    let d = driver(vec![claiming(0, &log), claiming(1, &log)]);
    let r = d
        .render(RenderArgs { chunk: 0, source: Source { text: String::new() } })
        .unwrap();
    assert_eq!(r, Some(Source { text: String::from("render:0") }));
    // an error inside a fold propagates and aborts the phase
    let log2: Log = Rc::new(RefCell::new(vec![]));
    let d2 = driver(vec![transforming(0, &log2), failing(1, &log2), transforming(2, &log2)]);
    log2.borrow_mut().clear();
    let r2 = d2.render_startup(RenderStartupArgs {
        chunk: 0,
        module: ModuleIdentifier(0),
        source: Source { text: String::from("s") },
    });
    assert_eq!(r2.unwrap_err().message, "fail:1");
    assert_eq!(
        *log2.borrow(),
        vec!["render_startup:0:s", "render_startup:1:s+0"]
    );
}
