//! Validation of HTTP method tokens.
//!
//! The engine recognizes exactly the seven standard verbs GET, POST, PUT,
//! PATCH, DELETE, HEAD and OPTIONS; any other method string — unknown or
//! malformed — is rejected before any network activity.
//!
//! Separately, the token-character grammar of the `http` crate is written
//! down here: it is what the transport's method parser accepts, and every
//! recognized verb satisfies it.

use vstd::prelude::*;

verus! {

/// The token characters the `http` crate admits in a method: `! * + - . ^
/// _ ` | ~`, digits and letters.
pub open spec fn is_method_char(c: char) -> bool {
    ||| c == '!'
    ||| c == '*'
    ||| c == '+'
    ||| c == '-'
    ||| c == '.'
    ||| c == '^'
    ||| c == '_'
    ||| c == '`'
    ||| c == '|'
    ||| c == '~'
    ||| ('0' <= c && c <= '9')
    ||| ('A' <= c && c <= 'Z')
    ||| ('a' <= c && c <= 'z')
}

/// A string the transport's method parser accepts: non-empty, made of
/// token characters.
pub open spec fn is_token_method(s: Seq<char>) -> bool {
    &&& s.len() > 0
    &&& forall|i: int| 0 <= i < s.len() ==> is_method_char(#[trigger] s[i])
}

/// A method string the engine accepts: one of the seven standard verbs.
pub open spec fn is_valid_method(s: Seq<char>) -> bool {
    ||| s == "GET"@
    ||| s == "POST"@
    ||| s == "PUT"@
    ||| s == "PATCH"@
    ||| s == "DELETE"@
    ||| s == "HEAD"@
    ||| s == "OPTIONS"@
}

/// Whether the verb is GET or HEAD: the two verbs that never carry a body.
pub open spec fn spec_is_get_or_head(s: Seq<char>) -> bool {
    s == "GET"@ || s == "HEAD"@
}

/// Every verb the engine accepts satisfies the transport's token grammar,
/// so handing a validated method to the transport's parser cannot fail.
pub proof fn lemma_valid_method_is_token(s: Seq<char>)
    requires
        is_valid_method(s),
    ensures
        is_token_method(s),
{
    reveal_strlit("GET");
    reveal_strlit("POST");
    reveal_strlit("PUT");
    reveal_strlit("PATCH");
    reveal_strlit("DELETE");
    reveal_strlit("HEAD");
    reveal_strlit("OPTIONS");
    assert(forall|i: int| 0 <= i < s.len() ==> is_method_char(#[trigger] s[i]));
}

/// Among the verbs the engine accepts, exactly GET and HEAD are the ones
/// that never carry a body.
pub proof fn lemma_standard_methods()
    ensures
        is_valid_method("GET"@),
        is_valid_method("POST"@),
        is_valid_method("PUT"@),
        is_valid_method("PATCH"@),
        is_valid_method("DELETE"@),
        is_valid_method("HEAD"@),
        is_valid_method("OPTIONS"@),
        spec_is_get_or_head("GET"@),
        spec_is_get_or_head("HEAD"@),
        !spec_is_get_or_head("POST"@),
        !spec_is_get_or_head("PUT"@),
        !spec_is_get_or_head("PATCH"@),
        !spec_is_get_or_head("DELETE"@),
        !spec_is_get_or_head("OPTIONS"@),
{
    reveal_strlit("GET");
    reveal_strlit("POST");
    reveal_strlit("PUT");
    reveal_strlit("PATCH");
    reveal_strlit("DELETE");
    reveal_strlit("HEAD");
    reveal_strlit("OPTIONS");
    assert("POST"@ != "GET"@ && "POST"@ != "HEAD"@) by {
        assert("POST"@[0] == 'P' && "GET"@[0] == 'G' && "HEAD"@[0] == 'H');
    }
    assert("PUT"@ != "GET"@ && "PUT"@ != "HEAD"@) by {
        assert("PUT"@[0] == 'P' && "GET"@[0] == 'G' && "HEAD"@[0] == 'H');
    }
    assert("PATCH"@ != "GET"@ && "PATCH"@ != "HEAD"@) by {
        assert("PATCH"@[0] == 'P' && "GET"@[0] == 'G' && "HEAD"@[0] == 'H');
    }
    assert("DELETE"@ != "GET"@ && "DELETE"@ != "HEAD"@) by {
        assert("DELETE"@[0] == 'D' && "GET"@[0] == 'G' && "HEAD"@[0] == 'H');
    }
    assert("OPTIONS"@ != "GET"@ && "OPTIONS"@ != "HEAD"@) by {
        assert("OPTIONS"@[0] == 'O' && "GET"@[0] == 'G' && "HEAD"@[0] == 'H');
    }
}

fn equals_lit(s: &str, lit: &str) -> (r: bool)
    ensures
        r == (s@ == lit@),
{
    let a = String::from_str(s);
    let b = String::from_str(lit);
    a == b
}

/// Decides whether `s` is one of the seven verbs the engine accepts.
pub fn validate_method(s: &str) -> (r: bool)
    ensures
        r == is_valid_method(s@),
{
    equals_lit(s, "GET") || equals_lit(s, "POST") || equals_lit(s, "PUT") || equals_lit(s, "PATCH")
        || equals_lit(s, "DELETE") || equals_lit(s, "HEAD") || equals_lit(s, "OPTIONS")
}

/// Decides whether the method string is exactly GET or HEAD.
pub fn is_get_or_head(s: &str) -> (r: bool)
    ensures
        r == spec_is_get_or_head(s@),
{
    equals_lit(s, "GET") || equals_lit(s, "HEAD")
}

} // verus!
