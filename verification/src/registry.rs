//! The method registry and the JSON-RPC dispatcher.
//!
//! A registry maps wire names to handlers; names are unique, and a duplicate
//! registration is refused at construction time, never silently overwritten.
//! Dispatch decodes one request envelope, routes it by method name, and
//! always produces exactly one response envelope; malformed or unsupported
//! input becomes an error envelope, never a crash.

use vstd::prelude::*;
use crate::envelope;
use crate::handlers;
use crate::handlers::ReplySpec;
use crate::json;
use crate::method::Method;
use crate::strutil::str_eq;

verus! {

/// One registration: a wire name bound to a handler.
pub struct Registration {
    pub name: String,
    pub handler: Method,
}

/// The error of a registration that would reuse a name.
#[derive(Debug, PartialEq, Eq, Structural)]
pub enum RegistryError {
    DuplicateName,
}

/// A method registry: the registered routes and the optional shared value
/// handed to every handler.
pub struct Registry {
    entries: Vec<Registration>,
    shared: Option<String>,
}

/// What a request dispatch hands back: exactly one response envelope, and
/// the notifications the handler pushed for best-effort delivery after it.
pub struct DispatchOutcome {
    pub response: String,
    pub notifications: Vec<String>,
}

/// The route map a sequence of registrations denotes.
pub open spec fn routes_of(s: Seq<Registration>) -> Map<Seq<char>, Method>
    decreases s.len(),
{
    if s.len() == 0 {
        Map::empty()
    } else {
        routes_of(s.drop_last()).insert(s.last().name@, s.last().handler)
    }
}

/// No two registrations share a name.
pub open spec fn unique_names(s: Seq<Registration>) -> bool {
    forall|i: int, j: int| 0 <= i < j < s.len() ==> s[i].name@ != s[j].name@
}

/// A name is in the route map exactly when some registration carries it.
proof fn lemma_routes_of_contains(s: Seq<Registration>, n: Seq<char>)
    ensures
        routes_of(s).contains_key(n) <==> exists|i: int| 0 <= i < s.len() && s[i].name@ == n,
    decreases s.len(),
{
    if s.len() > 0 {
        lemma_routes_of_contains(s.drop_last(), n);
        if s.last().name@ == n {
            assert(s[s.len() - 1].name@ == n);
        } else if routes_of(s).contains_key(n) {
            let i = choose|i: int| 0 <= i < s.drop_last().len() && s.drop_last()[i].name@ == n;
            assert(s[i].name@ == n);
        } else {
            assert forall|i: int| 0 <= i < s.len() && s[i].name@ == n implies false by {
                if i < s.len() - 1 {
                    assert(s.drop_last()[i].name@ == n);
                }
            }
        }
    }
}

/// Under unique names, the route map sends each registered name to the
/// handler of the one registration that carries it.
proof fn lemma_routes_of_value(s: Seq<Registration>, i: int)
    requires
        0 <= i < s.len(),
        unique_names(s),
    ensures
        routes_of(s).contains_key(s[i].name@),
        routes_of(s)[s[i].name@] == s[i].handler,
    decreases s.len(),
{
    if i == s.len() - 1 {
        assert(s.last() == s[i]);
    } else {
        assert(unique_names(s.drop_last()));
        assert(s.drop_last()[i] == s[i]);
        lemma_routes_of_value(s.drop_last(), i);
        assert(s.last().name@ != s[i].name@);
    }
}

impl Registry {
    /// The route map of this registry.
    pub closed spec fn spec_routes(self) -> Map<Seq<char>, Method> {
        routes_of(self.entries@)
    }

    /// The shared value of this registry.
    pub closed spec fn spec_shared(self) -> Option<Seq<char>> {
        json::opt_str_view(self.shared)
    }

    /// Names are registered at most once.
    pub closed spec fn wf(self) -> bool {
        unique_names(self.entries@)
    }

    /// An empty registry without a shared value.
    pub fn new() -> (r: Registry)
        ensures
            r.wf(),
            r.spec_routes() == Map::<Seq<char>, Method>::empty(),
            r.spec_shared() is None,
    {
        Registry { entries: Vec::new(), shared: Option::None }
    }

    /// Replaces the shared value handed to handlers.
    pub fn set_shared(&mut self, shared: Option<String>)
        requires
            old(self).wf(),
        ensures
            final(self).wf(),
            final(self).spec_routes() == old(self).spec_routes(),
            final(self).spec_shared() == json::opt_str_view(shared),
    {
        self.shared = shared;
    }

    /// The handler a name routes to, if any.
    fn find_handler(&self, name: &str) -> (r: Option<Method>)
        requires
            self.wf(),
        ensures
            r is Some <==> self.spec_routes().contains_key(name@),
            r matches Some(k) ==> self.spec_routes().contains_key(name@)
                && self.spec_routes()[name@] == k,
    {
        let n = self.entries.len();
        let mut i: usize = 0;
        while i < n
            invariant
                0 <= i <= n,
                n == self.entries@.len(),
                self.wf(),
                forall|j: int| 0 <= j < i ==> self.entries@[j].name@ != name@,
            decreases n - i,
        {
            if str_eq(self.entries[i].name.as_str(), name) {
                proof {
                    lemma_routes_of_value(self.entries@, i as int);
                }
                return Option::Some(self.entries[i].handler);
            }
            i += 1;
        }
        proof {
            lemma_routes_of_contains(self.entries@, name@);
        }
        Option::None
    }

    /// Binds a handler to a wire name. A name already bound is refused, and
    /// the registry is left as it was.
    pub fn register(&mut self, name: String, handler: Method) -> (r: Result<(), RegistryError>)
        requires
            old(self).wf(),
        ensures
            final(self).wf(),
            old(self).spec_routes().contains_key(name@) ==> r is Err && final(self).spec_routes()
                == old(self).spec_routes() && final(self).spec_shared() == old(
                self,
            ).spec_shared(),
            !old(self).spec_routes().contains_key(name@) ==> r is Ok && final(self).spec_routes()
                == old(self).spec_routes().insert(name@, handler) && final(self).spec_shared()
                == old(self).spec_shared(),
    {
        if self.find_handler(name.as_str()).is_some() {
            return Result::Err(RegistryError::DuplicateName);
        }
        proof {
            lemma_routes_of_contains(self.entries@, name@);
        }
        let ghost old_entries = self.entries@;
        self.entries.push(Registration { name, handler });
        proof {
            assert(self.entries@.drop_last() =~= old_entries);
            assert forall|i: int, j: int|
                0 <= i < j < self.entries@.len() implies self.entries@[i].name@
                != self.entries@[j].name@ by {
                if j < self.entries@.len() - 1 {
                    assert(old_entries[i] == self.entries@[i]);
                    assert(old_entries[j] == self.entries@[j]);
                } else {
                    assert(old_entries[i] == self.entries@[i]);
                }
            }
        }
        Result::Ok(())
    }

    /// Decodes one request, routes it, and produces exactly one response
    /// envelope, together with the notifications the handler pushed.
    pub fn dispatch(&self, raw: &str) -> (r: DispatchOutcome)
        requires
            self.wf(),
        ensures
            r.response@ == dispatch_spec(self.spec_routes(), raw@),
            r.notifications@.len() == 0,
    {
        let decoded = json::decode_envelope(raw);
        let env = match decoded {
            Option::Some(env) => env,
            Option::None => {
                return DispatchOutcome {
                    response: envelope::build_error_envelope("null", "-32700", "parse error"),
                    notifications: Vec::new(),
                };
            },
        };
        let id: String = match env.id_json {
            Option::Some(i) => i,
            Option::None => "null".to_owned(),
        };
        let name: String = match env.method {
            Option::Some(m) => m,
            Option::None => {
                return DispatchOutcome {
                    response: envelope::build_error_envelope(
                        id.as_str(),
                        "-32600",
                        "invalid request",
                    ),
                    notifications: Vec::new(),
                };
            },
        };
        let kind = match self.find_handler(name.as_str()) {
            Option::Some(kind) => kind,
            Option::None => {
                return DispatchOutcome {
                    response: envelope::build_error_envelope(
                        id.as_str(),
                        "-32601",
                        "method not found",
                    ),
                    notifications: Vec::new(),
                };
            },
        };
        let params: String = match env.params_json {
            Option::Some(p) => p,
            Option::None => {
                return DispatchOutcome {
                    response: envelope::build_error_envelope(
                        id.as_str(),
                        "-32602",
                        "invalid params: params must be an array",
                    ),
                    notifications: Vec::new(),
                };
            },
        };
        let elems: Vec<String> = match json::split_params(params.as_str()) {
            Option::Some(elems) => elems,
            Option::None => {
                return DispatchOutcome {
                    response: envelope::build_error_envelope(
                        id.as_str(),
                        "-32602",
                        "invalid params: params must be an array",
                    ),
                    notifications: Vec::new(),
                };
            },
        };
        let (reply, notifications) = handlers::invoke_handler(kind, &elems, &self.shared);
        let response = match reply {
            handlers::HandlerReply::Success(result) => envelope::build_success_envelope(
                id.as_str(),
                result.as_str(),
            ),
            handlers::HandlerReply::Invalid(msg) => envelope::build_error_envelope(
                id.as_str(),
                "-32602",
                msg.as_str(),
            ),
            handlers::HandlerReply::Failure(msg) => envelope::build_error_envelope(
                id.as_str(),
                "-32000",
                msg.as_str(),
            ),
        };
        DispatchOutcome { response, notifications }
    }
}

/// The raw id text used when a request's id is absent or undecodable.
pub open spec fn id_or_null(id: Option<Seq<char>>) -> Seq<char> {
    match id {
        Option::Some(i) => i,
        Option::None => "null"@,
    }
}

/// What dispatching one raw request against a route map yields.
///
/// An undecodable request gets a parse-error envelope with a null id; one
/// without a method string an invalid-request envelope; an unregistered
/// method name a method-not-found envelope, the request's id preserved when
/// it was decodable; parameters that are no array an invalid-params
/// envelope; and a routed call the envelope its handler's reply denotes.
pub open spec fn dispatch_spec(routes: Map<Seq<char>, Method>, raw: Seq<char>) -> Seq<char> {
    match json::envelope_view(raw) {
        Option::None => envelope::error_envelope_spec("null"@, "-32700"@, "parse error"@),
        Option::Some(t) => {
            let id = id_or_null(t.0);
            match t.1 {
                Option::None => envelope::error_envelope_spec(id, "-32600"@, "invalid request"@),
                Option::Some(name) => if !routes.contains_key(name) {
                    envelope::error_envelope_spec(id, "-32601"@, "method not found"@)
                } else {
                    let kind = routes[name];
                    match t.2 {
                        Option::None => envelope::error_envelope_spec(
                            id,
                            "-32602"@,
                            "invalid params: params must be an array"@,
                        ),
                        Option::Some(ptext) => match json::params_elems(ptext) {
                            Option::None => envelope::error_envelope_spec(
                                id,
                                "-32602"@,
                                "invalid params: params must be an array"@,
                            ),
                            Option::Some(elems) => match handlers::invoke_spec(kind, elems) {
                                ReplySpec::Success(result) => envelope::success_envelope_spec(
                                    id,
                                    result,
                                ),
                                ReplySpec::Invalid(msg) => envelope::error_envelope_spec(
                                    id,
                                    "-32602"@,
                                    msg,
                                ),
                                ReplySpec::Failure(msg) => envelope::error_envelope_spec(
                                    id,
                                    "-32000"@,
                                    msg,
                                ),
                            },
                        },
                    }
                },
            }
        },
    }
}

/// The standard MEV route table: every method under its canonical wire name.
pub open spec fn standard_routes() -> Map<Seq<char>, Method> {
    Map::<Seq<char>, Method>::empty().insert(
        crate::method::wire_name_spec(Method::SendBundle),
        Method::SendBundle,
    ).insert(crate::method::wire_name_spec(Method::CancelBundle), Method::CancelBundle).insert(
        crate::method::wire_name_spec(Method::CallBundle),
        Method::CallBundle,
    ).insert(
        crate::method::wire_name_spec(Method::SendPrivateTransaction),
        Method::SendPrivateTransaction,
    ).insert(
        crate::method::wire_name_spec(Method::CancelPrivateTransaction),
        Method::CancelPrivateTransaction,
    ).insert(
        crate::method::wire_name_spec(Method::SendPrivateRawTransaction),
        Method::SendPrivateRawTransaction,
    )
}

/// Builds the standard registry: every method registered under its
/// canonical wire name, with no shared value.
pub fn router() -> (r: Registry)
    ensures
        r.wf(),
        r.spec_routes() == standard_routes(),
        r.spec_shared() is None,
{
    proof {
        crate::method::lemma_wire_names_distinct(Method::CancelBundle, Method::SendBundle);
        crate::method::lemma_wire_names_distinct(Method::CallBundle, Method::SendBundle);
        crate::method::lemma_wire_names_distinct(Method::CallBundle, Method::CancelBundle);
        crate::method::lemma_wire_names_distinct(Method::SendPrivateTransaction, Method::SendBundle);
        crate::method::lemma_wire_names_distinct(
            Method::SendPrivateTransaction,
            Method::CancelBundle,
        );
        crate::method::lemma_wire_names_distinct(Method::SendPrivateTransaction, Method::CallBundle);
        crate::method::lemma_wire_names_distinct(
            Method::CancelPrivateTransaction,
            Method::SendBundle,
        );
        crate::method::lemma_wire_names_distinct(
            Method::CancelPrivateTransaction,
            Method::CancelBundle,
        );
        crate::method::lemma_wire_names_distinct(
            Method::CancelPrivateTransaction,
            Method::CallBundle,
        );
        crate::method::lemma_wire_names_distinct(
            Method::CancelPrivateTransaction,
            Method::SendPrivateTransaction,
        );
        crate::method::lemma_wire_names_distinct(
            Method::SendPrivateRawTransaction,
            Method::SendBundle,
        );
        crate::method::lemma_wire_names_distinct(
            Method::SendPrivateRawTransaction,
            Method::CancelBundle,
        );
        crate::method::lemma_wire_names_distinct(
            Method::SendPrivateRawTransaction,
            Method::CallBundle,
        );
        crate::method::lemma_wire_names_distinct(
            Method::SendPrivateRawTransaction,
            Method::SendPrivateTransaction,
        );
        crate::method::lemma_wire_names_distinct(
            Method::SendPrivateRawTransaction,
            Method::CancelPrivateTransaction,
        );
    }
    let mut r = Registry::new();
    let _ = r.register(Method::SendBundle.wire_name(), Method::SendBundle);
    let _ = r.register(Method::CancelBundle.wire_name(), Method::CancelBundle);
    let _ = r.register(Method::CallBundle.wire_name(), Method::CallBundle);
    let _ = r.register(Method::SendPrivateTransaction.wire_name(), Method::SendPrivateTransaction);
    let _ = r.register(
        Method::CancelPrivateTransaction.wire_name(),
        Method::CancelPrivateTransaction,
    );
    let _ = r.register(
        Method::SendPrivateRawTransaction.wire_name(),
        Method::SendPrivateRawTransaction,
    );
    r
}

/// Every request, however malformed, gets exactly one response, and that
/// response is a JSON-RPC envelope carrying either a result or an error,
/// never both and never neither.
pub proof fn lemma_dispatch_yields_one_envelope(routes: Map<Seq<char>, Method>, raw: Seq<char>)
    ensures
        (exists|id: Seq<char>, result: Seq<char>|
            dispatch_spec(routes, raw) == envelope::success_envelope_spec(id, result)) || (
        exists|id: Seq<char>, code: Seq<char>, msg: Seq<char>|
            dispatch_spec(routes, raw) == envelope::error_envelope_spec(id, code, msg)),
{
    let r = dispatch_spec(routes, raw);
    match json::envelope_view(raw) {
        Option::None => {
            assert(r == envelope::error_envelope_spec("null"@, "-32700"@, "parse error"@));
        },
        Option::Some(t) => {
            let id = id_or_null(t.0);
            match t.1 {
                Option::None => {
                    assert(r == envelope::error_envelope_spec(id, "-32600"@, "invalid request"@));
                },
                Option::Some(name) => {
                    if !routes.contains_key(name) {
                        assert(r == envelope::error_envelope_spec(
                            id,
                            "-32601"@,
                            "method not found"@,
                        ));
                    } else {
                        let kind = routes[name];
                        match t.2 {
                            Option::None => {
                                assert(r == envelope::error_envelope_spec(
                                    id,
                                    "-32602"@,
                                    "invalid params: params must be an array"@,
                                ));
                            },
                            Option::Some(ptext) => match json::params_elems(ptext) {
                                Option::None => {
                                    assert(r == envelope::error_envelope_spec(
                                        id,
                                        "-32602"@,
                                        "invalid params: params must be an array"@,
                                    ));
                                },
                                Option::Some(elems) => match handlers::invoke_spec(kind, elems) {
                                    ReplySpec::Success(result) => {
                                        assert(r == envelope::success_envelope_spec(id, result));
                                    },
                                    ReplySpec::Invalid(msg) => {
                                        assert(r == envelope::error_envelope_spec(
                                            id,
                                            "-32602"@,
                                            msg,
                                        ));
                                    },
                                    ReplySpec::Failure(msg) => {
                                        assert(r == envelope::error_envelope_spec(
                                            id,
                                            "-32000"@,
                                            msg,
                                        ));
                                    },
                                },
                            },
                        }
                    }
                },
            }
        },
    }
}

/// A request routed to the bundle-submission handler whose first parameter
/// is a valid bundle gets a success envelope, its result the placeholder
/// bundle-hash object, under the id the request carried.
pub proof fn lemma_send_bundle_success_envelope(routes: Map<Seq<char>, Method>, raw: Seq<char>)
    ensures
        ({
            let v = json::envelope_view(raw);
            v is Some && v.unwrap().1 is Some && routes.contains_key(v.unwrap().1.unwrap())
                && routes[v.unwrap().1.unwrap()] == Method::SendBundle && v.unwrap().2 is Some
                && json::params_elems(v.unwrap().2.unwrap()) is Some && json::params_elems(
                v.unwrap().2.unwrap(),
            ).unwrap().len() >= 1 && json::send_bundle_json(
                json::params_elems(v.unwrap().2.unwrap()).unwrap()[0],
            ) is Some ==> dispatch_spec(routes, raw) == envelope::success_envelope_spec(
                id_or_null(v.unwrap().0),
                handlers::bundle_hash_stub_spec(),
            )
        }),
{
}

/// Dispatch of a decodable envelope whose method name is not registered
/// always yields the method-not-found error envelope, the request's id
/// preserved when it was decodable.
pub proof fn lemma_unregistered_method_not_found(
    routes: Map<Seq<char>, Method>,
    raw: Seq<char>,
)
    ensures
        ({
            let v = json::envelope_view(raw);
            v is Some && v.unwrap().1 is Some && !routes.contains_key(v.unwrap().1.unwrap())
                ==> dispatch_spec(routes, raw) == envelope::error_envelope_spec(
                id_or_null(v.unwrap().0),
                "-32601"@,
                "method not found"@,
            )
        }),
{
}

} // verus!
