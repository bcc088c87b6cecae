//! The native clients that requests to the gateway can go through.

use crate::registry::ProviderKind;
use crate::routing::is_compat;
use crate::text::text_of;
use vstd::prelude::*;

verus! {

/// How requests are authenticated.
#[derive(Debug)]
pub struct ResolvedAuth {
    pub base_url: Option<String>,
    pub headers: Vec<(String, String)>,
}

/// What a `ResolvedAuth` holds.
pub struct AuthView {
    pub base_url: Option<Seq<char>>,
    pub headers: Seq<(Seq<char>, Seq<char>)>,
}

impl View for ResolvedAuth {
    type V = AuthView;

    open spec fn view(&self) -> AuthView {
        AuthView {
            base_url: text_of(self.base_url),
            headers: self.headers@.map_values(|h: (String, String)| (h.0@, h.1@)),
        }
    }
}

impl Clone for ResolvedAuth {
    fn clone(&self) -> (r: Self)
        ensures
            r@ == self@,
    {
        let mut headers: Vec<(String, String)> = Vec::new();
        let n: usize = self.headers.len();
        let mut i: usize = 0;
        while i < n
            invariant
                n == self.headers.len(),
                i == headers.len(),
                i <= n,
                forall|j: int|
                    0 <= j < i ==> (#[trigger] headers@[j]).0@ == self.headers@[j].0@
                        && headers@[j].1@ == self.headers@[j].1@,
            decreases n - i,
        {
            headers.push((self.headers[i].0.clone(), self.headers[i].1.clone()));
            i = i + 1;
        }
        let r = ResolvedAuth { base_url: self.base_url.clone(), headers };
        assert(r@.headers =~= self@.headers);
        r
    }
}

/// A server on the user's own machine.
#[derive(Clone, Copy, Debug, PartialEq, Eq, Structural)]
pub enum LocalServer {
    Ollama,
    LlamaCpp,
}

/// The client that a routed request goes through.
#[derive(Clone, Copy, Debug, PartialEq, Eq, Structural)]
pub enum NativeClient {
    OpenAi,
    Local(LocalServer),
    Mistral,
    Zai,
    DeepSeek,
    OpenRouter,
    Synthetic,
    TensorX,
}

/// A native client, pointed at the gateway. `A` is how clients hold on to their
/// authentication, and `T` what they take as timeouts.
#[derive(Debug)]
pub struct RoutedProvider<A, T> {
    pub client: NativeClient,
    pub auth: A,
    pub timeouts: T,
    pub system_prefix: Option<String>,
}

/// The client of each kind that the gateway can serve.
pub open spec fn client_of(kind: ProviderKind) -> Option<NativeClient> {
    match kind {
        ProviderKind::OpenAi => Some(NativeClient::OpenAi),
        ProviderKind::Ollama => Some(NativeClient::Local(LocalServer::Ollama)),
        ProviderKind::LlamaCpp => Some(NativeClient::Local(LocalServer::LlamaCpp)),
        ProviderKind::Mistral => Some(NativeClient::Mistral),
        ProviderKind::Zai => Some(NativeClient::Zai),
        ProviderKind::DeepSeek => Some(NativeClient::DeepSeek),
        ProviderKind::OpenRouter => Some(NativeClient::OpenRouter),
        ProviderKind::Synthetic => Some(NativeClient::Synthetic),
        ProviderKind::TensorX => Some(NativeClient::TensorX),
        _ => None,
    }
}

/// There is a client for exactly the kinds that the gateway can serve.
pub proof fn client_for_each_compat_kind(kind: ProviderKind)
    ensures
        client_of(kind) is Some <==> is_compat(kind),
{
}

/// The client of a kind that the gateway can serve, with the gateway's
/// authentication, timeouts and system prefix.
pub fn build_routed_provider<A, T>(
    kind: ProviderKind,
    auth: A,
    timeouts: T,
    system_prefix: Option<String>,
) -> (r: RoutedProvider<A, T>)
    requires
        is_compat(kind),
    ensures
        client_of(kind) == Some(r.client),
        r.auth == auth,
        r.timeouts == timeouts,
        r.system_prefix == system_prefix,
{
    let client = match kind {
        ProviderKind::OpenAi => NativeClient::OpenAi,
        ProviderKind::Ollama => NativeClient::Local(LocalServer::Ollama),
        ProviderKind::LlamaCpp => NativeClient::Local(LocalServer::LlamaCpp),
        ProviderKind::Mistral => NativeClient::Mistral,
        ProviderKind::Zai => NativeClient::Zai,
        ProviderKind::DeepSeek => NativeClient::DeepSeek,
        ProviderKind::OpenRouter => NativeClient::OpenRouter,
        ProviderKind::Synthetic => NativeClient::Synthetic,
        ProviderKind::TensorX => NativeClient::TensorX,
        _ => vstd::pervasive::unreached(),
    };
    RoutedProvider { client, auth, timeouts, system_prefix }
}

} // verus!
