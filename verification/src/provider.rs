//! The provider that stands for the gateway.

use crate::adjust::{adjusted, apply_adjustments, route, Model};
use crate::error::AgentError;
use crate::json_text::{parse_json, parsed_text};
use crate::listing::{info_views, models_in, parse_models, ModelInfo};
use crate::native::{build_routed_provider, client_of, AuthView, ResolvedAuth, RoutedProvider};
use crate::overrides::{Overrides, OverridesView};
use crate::registry::{Registry, RegistryView};
use crate::routing::routed_kind;
use crate::settings::{base_url, config, resolve_base_url, OpenAiCompatConfig, BASE_URL_ENV};
use crate::string_map::StringMap;
use crate::text::{split_once, text_of};
use crate::validation::{
    validate_overrides, vendor_by_vendor, warned, warning_views, BaseWarning, BaseWarningView,
};
use vstd::prelude::*;

verus! {

/// What became of the file that holds the user's overrides.
pub enum OverridesFile {
    /// There is no directory for configuration files.
    NoConfigDir,
    /// The file is not there, or cannot be read.
    Unreadable,
    /// The file can be read but does not hold overrides.
    Malformed,
    Parsed(Overrides),
}

/// The overrides that a file gives: none, unless it could be read as such.
pub open spec fn overrides_in(file: OverridesFile) -> OverridesView {
    match file {
        OverridesFile::Parsed(overrides) => overrides@,
        _ => Map::empty(),
    }
}

/// The warnings are those, each once, that the overrides call for, vendor by vendor.
pub open spec fn warns_of(
    warnings: Seq<BaseWarning>,
    registry: RegistryView,
    overrides: OverridesView,
) -> bool {
    &&& forall|w: BaseWarningView| #[trigger]
        warning_views(warnings).contains(w) <==> warned(registry, overrides, w)
    &&& warning_views(warnings).no_duplicates()
    &&& vendor_by_vendor(warning_views(warnings))
}

/// The user's overrides, and a warning for each base among them that will be ignored.
pub fn load_overrides(registry: &Registry, file: OverridesFile) -> (r: (
    Overrides,
    Vec<BaseWarning>,
))
    ensures
        r.0@ == overrides_in(file),
        warns_of(r.1@, registry@, overrides_in(file)),
{
    let overrides = match file {
        OverridesFile::Parsed(overrides) => overrides,
        _ => StringMap::new(),
    };
    let warnings = validate_overrides(registry, &overrides);
    (overrides, warnings)
}

/// Where the gateway's list of models is, going by the authentication in use.
pub fn models_url(auth: &ResolvedAuth) -> (r: String)
    ensures
        r@ == (match auth@.base_url {
            Some(url) => url,
            None => Seq::empty(),
        }) + "/v1/models"@,
{
    let mut url = match &auth.base_url {
        Some(url) => url.clone(),
        None => String::new(),
    };
    url.append("/v1/models");
    url
}

/// The gateway as a provider. `A` is how it holds on to its authentication, such as a
/// handle that it shares with the clients it routes to, and `T` is what its transports
/// take as timeouts.
pub struct Aperture<A, T> {
    pub compat: OpenAiCompatConfig,
    pub auth: A,
    pub timeouts: T,
    pub system_prefix: Option<String>,
    pub overrides: Overrides,
}

/// How a request to the gateway is sent.
pub enum StreamPlan<'a, A, T> {
    /// Through the client of the native provider that the model is routed to, with the
    /// gateway's own authentication.
    Native(RoutedProvider<&'a A, T>),
    /// In the OpenAI protocol as such.
    Generic { auth: &'a A, system_prefix: Option<String> },
}

/// A system prefix, unless it is empty.
pub open spec fn nonempty(prefix: Option<Seq<char>>) -> Option<Seq<char>> {
    match prefix {
        Some(s) if s.len() > 0 => Some(s),
        _ => None,
    }
}

impl<A, T> Aperture<A, T> {
    /// Requests are put the gateway's way, and a system prefix is never empty.
    pub open spec fn wf(&self) -> bool {
        &&& self.compat.api_key_env@ == BASE_URL_ENV@
        &&& self.compat.base_url@ == ""@
        &&& self.compat.max_tokens_field@ == "max_tokens"@
        &&& self.compat.include_stream_usage
        &&& self.compat.provider_name@ == "Aperture"@
        &&& nonempty(text_of(self.system_prefix)) == text_of(self.system_prefix)
    }

    /// The gateway with the given authentication, and warnings about the overrides.
    pub fn with_auth(
        registry: &Registry,
        auth: A,
        timeouts: T,
        file: OverridesFile,
    ) -> (r: (Self, Vec<BaseWarning>))
        ensures
            r.0.wf(),
            r.0.auth == auth,
            r.0.timeouts == timeouts,
            r.0.system_prefix is None,
            r.0.overrides@ == overrides_in(file),
            warns_of(r.1@, registry@, overrides_in(file)),
    {
        let (overrides, warnings) = load_overrides(registry, file);
        let r = Aperture { compat: config(), auth, timeouts, system_prefix: None, overrides };
        (r, warnings)
    }

    /// The same gateway with another system prefix. An empty one is as good as none.
    pub fn with_system_prefix(self, prefix: Option<String>) -> (r: Self)
        ensures
            self.wf() ==> r.wf(),
            text_of(r.system_prefix) == nonempty(text_of(prefix)),
            r.compat == self.compat,
            r.auth == self.auth,
            r.timeouts == self.timeouts,
            r.overrides == self.overrides,
    {
        let system_prefix = match prefix {
            Some(s) => if s.as_str().is_empty() {
                None
            } else {
                Some(s)
            },
            None => None,
        };
        Aperture { system_prefix, ..self }
    }
}

impl<T> Aperture<ResolvedAuth, T> {
    /// The gateway at the base URL that the environment or the configuration gives,
    /// and warnings about the overrides. Without a base URL there is none.
    pub fn new(
        registry: &Registry,
        timeouts: T,
        env: Option<String>,
        configured: Option<String>,
        file: OverridesFile,
    ) -> (r: Result<(Self, Vec<BaseWarning>), AgentError>)
        ensures
            match base_url(text_of(env), text_of(configured)) {
                Some(url) => {
                    &&& r is Ok
                    &&& r->Ok_0.0.wf()
                    &&& r->Ok_0.0.auth@ == AuthView { base_url: Some(url), headers: Seq::empty() }
                    &&& r->Ok_0.0.timeouts == timeouts
                    &&& r->Ok_0.0.system_prefix is None
                    &&& r->Ok_0.0.overrides@ == overrides_in(file)
                    &&& warns_of(r->Ok_0.1@, registry@, overrides_in(file))
                },
                None => r matches Err(AgentError::Config { message }) && message@ == BASE_URL_ENV@
                    + " not set"@,
            },
    {
        match resolve_base_url(env, configured) {
            Ok(url) => {
                let auth = ResolvedAuth { base_url: Some(url), headers: Vec::new() };
                assert(auth@.headers =~= Seq::empty());
                Ok(Self::with_auth(registry, auth, timeouts, file))
            },
            Err(e) => Err(e),
        }
    }
}

impl<A, T: Copy> Aperture<A, T> {
    /// How a request for the model with this id is sent: through the client of the
    /// native provider that the model is routed to, if there is one.
    pub fn plan_stream(&self, registry: &Registry, model_id: &str) -> (r: StreamPlan<'_, A, T>)
        ensures
            match route(registry@, self.overrides@, model_id@) {
                Some(native) => {
                    &&& r matches StreamPlan::Native(p)
                    &&& client_of(native.kind) == Some(p.client)
                    &&& *p.auth == self.auth
                    &&& p.timeouts == self.timeouts
                    &&& text_of(p.system_prefix) == text_of(self.system_prefix)
                },
                None => {
                    &&& r matches StreamPlan::Generic { auth, system_prefix }
                    &&& *auth == self.auth
                    &&& text_of(system_prefix) == text_of(self.system_prefix)
                },
            },
    {
        if let Some((provider_id, id)) = split_once(model_id, '/') {
            if let Some(kind) = routed_kind(registry, provider_id, &self.overrides, id) {
                return StreamPlan::Native(
                    build_routed_provider(
                        kind,
                        &self.auth,
                        self.timeouts,
                        self.system_prefix.clone(),
                    ),
                );
            }
        }
        StreamPlan::Generic { auth: &self.auth, system_prefix: self.system_prefix.clone() }
    }
}

impl<A, T> Aperture<A, T> {
    /// The models in the gateway's reply to a request for its list.
    pub fn list_models(&self, reply: &str) -> (r: Result<Vec<ModelInfo>, AgentError>)
        ensures
            match parsed_text(reply@) {
                Ok(body) => r is Ok && info_views(r->Ok_0@) == models_in(body, self.overrides@),
                Err(e) => r is Err && r->Err_0 == AgentError::Json(e),
            },
    {
        match parse_json(reply) {
            Ok(body) => Ok(parse_models(&body, &self.overrides)),
            Err(e) => Err(e),
        }
    }

    /// Brings a model in line with its native provider's table and the overrides.
    pub fn adjust_model(&self, registry: &Registry, model: &mut Model)
        ensures
            final(model)@ == adjusted(old(model)@, registry@, self.overrides@),
    {
        apply_adjustments(model, registry, &self.overrides);
    }
}

} // verus!
