//! The closed set of MEV JSON-RPC methods and its wire-name table.
//!
//! Each method maps to exactly one canonical wire name, and the mapping is a
//! total bijection: unknown names are rejected, never defaulted.

use vstd::prelude::*;

verus! {

/// The closed enumeration of supported JSON-RPC methods.
#[derive(Copy, Clone, Debug, PartialEq, Eq, Structural)]
pub enum Method {
    SendBundle,
    CancelBundle,
    CallBundle,
    SendPrivateTransaction,
    CancelPrivateTransaction,
    SendPrivateRawTransaction,
}

/// The canonical wire name of a method.
pub open spec fn wire_name_spec(m: Method) -> Seq<char> {
    match m {
        Method::SendBundle => "eth_sendBundle"@,
        Method::CancelBundle => "eth_cancelBundle"@,
        Method::CallBundle => "eth_callBundle"@,
        Method::SendPrivateTransaction => "eth_sendPrivateTransaction"@,
        Method::CancelPrivateTransaction => "eth_cancelPrivateTransaction"@,
        Method::SendPrivateRawTransaction => "eth_sendPrivateRawTransaction"@,
    }
}

/// The method a wire name denotes, if any.
pub open spec fn method_of_name_spec(s: Seq<char>) -> Option<Method> {
    if s == "eth_sendBundle"@ {
        Option::Some(Method::SendBundle)
    } else if s == "eth_cancelBundle"@ {
        Option::Some(Method::CancelBundle)
    } else if s == "eth_callBundle"@ {
        Option::Some(Method::CallBundle)
    } else if s == "eth_sendPrivateTransaction"@ {
        Option::Some(Method::SendPrivateTransaction)
    } else if s == "eth_cancelPrivateTransaction"@ {
        Option::Some(Method::CancelPrivateTransaction)
    } else if s == "eth_sendPrivateRawTransaction"@ {
        Option::Some(Method::SendPrivateRawTransaction)
    } else {
        Option::None
    }
}

impl Method {
    /// The canonical wire name of this method.
    pub fn wire_name(&self) -> (r: String)
        ensures
            r@ == wire_name_spec(*self),
    {
        match self {
            Method::SendBundle => "eth_sendBundle".to_owned(),
            Method::CancelBundle => "eth_cancelBundle".to_owned(),
            Method::CallBundle => "eth_callBundle".to_owned(),
            Method::SendPrivateTransaction => "eth_sendPrivateTransaction".to_owned(),
            Method::CancelPrivateTransaction => "eth_cancelPrivateTransaction".to_owned(),
            Method::SendPrivateRawTransaction => "eth_sendPrivateRawTransaction".to_owned(),
        }
    }

    /// Looks a wire name up in the table; unknown names are rejected.
    pub fn from_wire_name(s: &str) -> (r: Option<Method>)
        ensures
            r == method_of_name_spec(s@),
    {
        if crate::strutil::str_eq(s, "eth_sendBundle") {
            Option::Some(Method::SendBundle)
        } else if crate::strutil::str_eq(s, "eth_cancelBundle") {
            Option::Some(Method::CancelBundle)
        } else if crate::strutil::str_eq(s, "eth_callBundle") {
            Option::Some(Method::CallBundle)
        } else if crate::strutil::str_eq(s, "eth_sendPrivateTransaction") {
            Option::Some(Method::SendPrivateTransaction)
        } else if crate::strutil::str_eq(s, "eth_cancelPrivateTransaction") {
            Option::Some(Method::CancelPrivateTransaction)
        } else if crate::strutil::str_eq(s, "eth_sendPrivateRawTransaction") {
            Option::Some(Method::SendPrivateRawTransaction)
        } else {
            Option::None
        }
    }
}

impl Default for Method {
    /// The default method used when the operator selects none.
    fn default() -> (r: Self)
        ensures
            r == Method::SendBundle,
    {
        Method::SendBundle
    }
}

/// The name table is a total bijection: decoding a method's wire name gives
/// the method back, and any name that decodes at all is the canonical wire
/// name of the method it decodes to.
pub proof fn lemma_wire_name_bijection()
    ensures
        forall|m: Method| #[trigger] method_of_name_spec(wire_name_spec(m)) == Option::Some(m),
        forall|s: Seq<char>, m: Method|
            method_of_name_spec(s) == Option::Some(m) ==> s == wire_name_spec(m),
{
    reveal_strlit("eth_sendBundle");
    reveal_strlit("eth_cancelBundle");
    reveal_strlit("eth_callBundle");
    reveal_strlit("eth_sendPrivateTransaction");
    reveal_strlit("eth_cancelPrivateTransaction");
    reveal_strlit("eth_sendPrivateRawTransaction");
    assert(("eth_sendBundle"@).len() == 14);
    assert(("eth_cancelBundle"@).len() == 16);
    assert(("eth_callBundle"@).len() == 14);
    assert(("eth_sendPrivateTransaction"@).len() == 26);
    assert(("eth_cancelPrivateTransaction"@).len() == 28);
    assert(("eth_sendPrivateRawTransaction"@).len() == 29);
    assert(("eth_callBundle"@)[4] != ("eth_sendBundle"@)[4]);
    assert(("eth_callBundle"@) != ("eth_sendBundle"@));
    assert(method_of_name_spec(wire_name_spec(Method::SendBundle))
        == Option::Some(Method::SendBundle));
    assert(method_of_name_spec(wire_name_spec(Method::CancelBundle))
        == Option::Some(Method::CancelBundle));
    assert(method_of_name_spec(wire_name_spec(Method::CallBundle))
        == Option::Some(Method::CallBundle));
    assert(method_of_name_spec(wire_name_spec(Method::SendPrivateTransaction))
        == Option::Some(Method::SendPrivateTransaction));
    assert(method_of_name_spec(wire_name_spec(Method::CancelPrivateTransaction))
        == Option::Some(Method::CancelPrivateTransaction));
    assert(method_of_name_spec(wire_name_spec(Method::SendPrivateRawTransaction))
        == Option::Some(Method::SendPrivateRawTransaction));
    assert forall|m: Method| #[trigger] method_of_name_spec(wire_name_spec(m))
        == Option::Some(m) by {
        match m {
            Method::SendBundle => {},
            Method::CancelBundle => {},
            Method::CallBundle => {},
            Method::SendPrivateTransaction => {},
            Method::CancelPrivateTransaction => {},
            Method::SendPrivateRawTransaction => {},
        }
    }
}

/// No two methods share a wire name.
pub proof fn lemma_wire_names_distinct(m1: Method, m2: Method)
    ensures
        m1 != m2 ==> wire_name_spec(m1) != wire_name_spec(m2),
{
    lemma_wire_name_bijection();
    if m1 != m2 && wire_name_spec(m1) == wire_name_spec(m2) {
        assert(method_of_name_spec(wire_name_spec(m1)) == Option::Some(m1));
        assert(method_of_name_spec(wire_name_spec(m2)) == Option::Some(m2));
    }
}

} // verus!
