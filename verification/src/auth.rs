//! The data of a session with the service.

use crate::docs::{trim, trimmed};
use crate::err::Error;
use crate::text::{chars_of, str_eq, string_of};
use vstd::prelude::*;
use vstd::string::StringExecFns;

verus! {

/// The data of a session, as a login yields it.
#[derive(Debug, PartialEq, Eq)]
pub struct AuthenticationData {
    /// The Cloudflare challenge token, the cookie `cf_clearance`.
    pub cf_token: String,
    /// The user agent that was used for the login.
    pub user_agent: String,
    /// The access token, the cookie `__Secure-next-auth.session-token`.
    pub access_token: String,
}

impl Clone for AuthenticationData {
    fn clone(&self) -> (r: Self)
        ensures
            r == *self,
    {
        AuthenticationData {
            cf_token: self.cf_token.clone(),
            user_agent: self.user_agent.clone(),
            access_token: self.access_token.clone(),
        }
    }
}

/// The position of the first cookie called `name` at or after `from`.
pub open spec fn named_from(cookies: Seq<(Seq<char>, Seq<char>)>, name: Seq<char>, from: int) -> Option<
    int,
>
    decreases cookies.len() - from,
{
    if from < 0 || from >= cookies.len() {
        None
    } else if cookies[from].0 == name {
        Some(from)
    } else {
        named_from(cookies, name, from + 1)
    }
}

/// The position of the challenge token among the cookies.
pub open spec fn challenge_cookie(cookies: Seq<(Seq<char>, Seq<char>)>) -> Option<int> {
    named_from(cookies, "cf_clearance"@, 0)
}

/// The position of the access token among the cookies: it is looked for behind
/// the challenge token only.
pub open spec fn session_cookie(cookies: Seq<(Seq<char>, Seq<char>)>) -> Option<int> {
    match challenge_cookie(cookies) {
        Some(i) => named_from(cookies, "__Secure-next-auth.session-token"@, i + 1),
        None => None,
    }
}

fn find_named(cookies: &Vec<(String, String)>, name: &str, from: usize) -> (r: Option<usize>)
    requires
        from <= cookies@.len(),
    ensures
        match r {
            Some(i) => named_from(cookies.deep_view(), name@, from as int) == Some(i as int) && i
                < cookies@.len(),
            None => named_from(cookies.deep_view(), name@, from as int) is None,
        },
{
    let mut i: usize = from;
    let ghost all = cookies.deep_view();
    while i < cookies.len()
        invariant
            from <= i <= cookies@.len(),
            all == cookies.deep_view(),
            named_from(all, name@, from as int) == named_from(all, name@, i as int),
        decreases cookies@.len() - i,
    {
        proof {
            assert(all[i as int].0 == cookies@[i as int].0@);
        }
        if str_eq(cookies[i].0.as_str(), name) {
            return Some(i);
        }
        i = i + 1;
    }
    None
}

impl AuthenticationData {
    /// The session data that the cookies of a login hold, as pairs of name and
    /// value in the order of the cookie store.
    ///
    /// The challenge token is the first cookie `cf_clearance`; the access token is
    /// the first cookie `__Secure-next-auth.session-token` behind it. Where one of
    /// them is not found the login has failed.
    pub fn from_cookies(cookies: &Vec<(String, String)>, user_agent: &str) -> (r: Result<
        AuthenticationData,
        Error,
    >)
        ensures
            match (challenge_cookie(cookies.deep_view()), session_cookie(cookies.deep_view())) {
                (Some(i), Some(j)) => r matches Ok(data) && data.cf_token == cookies@[i].1
                    && data.access_token == cookies@[j].1 && data.user_agent@ == user_agent@,
                (Some(_), None) => r matches Err(Error::SimpleAuthFailed(detail)) && detail@
                    == "Could not find the auth session token in cookie storage."@,
                (None, _) => r matches Err(Error::SimpleAuthFailed(detail)) && detail@
                    == "Could not find the cloudflare token in cookie storage."@,
            },
    {
        let challenge = match find_named(cookies, "cf_clearance", 0) {
            Some(i) => i,
            None => {
                return Err(
                    Error::SimpleAuthFailed(
                        "Could not find the cloudflare token in cookie storage.".to_owned(),
                    ),
                );
            },
        };
        let count = cookies.len();
        assert(challenge < count);
        let session = match find_named(cookies, "__Secure-next-auth.session-token", challenge + 1) {
            Some(j) => j,
            None => {
                return Err(
                    Error::SimpleAuthFailed(
                        "Could not find the auth session token in cookie storage.".to_owned(),
                    ),
                );
            },
        };
        Ok(
            AuthenticationData {
                cf_token: cookies[challenge].1.clone(),
                user_agent: user_agent.to_owned(),
                access_token: cookies[session].1.clone(),
            },
        )
    }
}

/// The value of the `Authorization` header that carries `api_key`.
pub open spec fn bearer_of(api_key: Seq<char>) -> Seq<char> {
    "Bearer "@ + api_key
}

/// The value of the `Authorization` header that carries `api_key` as a bearer
/// credential.
pub fn bearer(api_key: &str) -> (r: String)
    ensures
        r@ == bearer_of(api_key@),
{
    "Bearer ".to_owned().concat(api_key)
}

/// `text` without the semicolons at its end.
pub open spec fn without_semicolons(text: Seq<char>) -> Seq<char>
    decreases text.len(),
{
    if text.len() > 0 && text.last() == ';' {
        without_semicolons(text.drop_last())
    } else {
        text
    }
}

/// The arguments of a call: `arguments` with `, ` between each two.
pub open spec fn argument_list(arguments: Seq<Seq<char>>) -> Seq<char>
    decreases arguments.len(),
{
    if arguments.len() == 0 {
        Seq::empty()
    } else if arguments.len() == 1 {
        arguments[0]
    } else {
        argument_list(arguments.drop_last()) + seq![',', ' '] + arguments.last()
    }
}

/// The expression that calls the script function `code` on `arguments`: the code,
/// without the white space around it and the semicolons at its end, in round
/// brackets, followed by the arguments in round brackets.
pub open spec fn script_call_of(code: Seq<char>, arguments: Seq<Seq<char>>) -> Seq<char> {
    seq!['('] + without_semicolons(trim(code)) + seq![')', '('] + argument_list(arguments)
        + seq![')']
}

fn push_all(out: &mut Vec<char>, text: &Vec<char>, count: usize)
    requires
        count <= text@.len(),
    ensures
        final(out)@ == old(out)@ + text@.take(count as int),
{
    let mut k: usize = 0;
    proof {
        assert(out@ =~= old(out)@ + text@.take(0));
    }
    while k < count
        invariant
            k <= count <= text@.len(),
            out@ == old(out)@ + text@.take(k as int),
        decreases count - k,
    {
        out.push(text[k]);
        proof {
            assert(out@ =~= old(out)@ + text@.take(k + 1));
        }
        k = k + 1;
    }
}

/// The expression that calls the script function `code` on `arguments`, each of
/// them given as it is to stand in the script.
pub fn script_call(code: &str, arguments: &Vec<String>) -> (r: String)
    ensures
        r@ == script_call_of(code@, arguments.deep_view()),
{
    let body = trimmed(&chars_of(code));
    let mut end: usize = body.len();
    proof {
        assert(body@.take(end as int) =~= body@);
    }
    while end > 0 && body[end - 1] == ';'
        invariant
            end <= body@.len(),
            without_semicolons(body@) == without_semicolons(body@.take(end as int)),
        decreases end,
    {
        proof {
            let part = body@.take(end as int);
            assert(part.last() == body@[end - 1]);
            assert(part.drop_last() =~= body@.take(end - 1));
        }
        end = end - 1;
    }
    assert(without_semicolons(body@) == body@.take(end as int)) by {
        let part = body@.take(end as int);
        if end > 0 {
            assert(part.last() == body@[end - 1]);
        }
    }
    let mut out: Vec<char> = Vec::new();
    out.push('(');
    push_all(&mut out, &body, end);
    out.push(')');
    out.push('(');
    let ghost head = out@;
    let ghost all = arguments.deep_view();
    assert(head =~= seq!['('] + without_semicolons(trim(code@)) + seq![')', '(']);
    let mut i: usize = 0;
    proof {
        assert(all.take(0).len() == 0);
        assert(out@ =~= head + argument_list(all.take(0)));
    }
    while i < arguments.len()
        invariant
            i <= arguments@.len(),
            all == arguments.deep_view(),
            out@ == head + argument_list(all.take(i as int)),
        decreases arguments@.len() - i,
    {
        let ghost before = argument_list(all.take(i as int));
        proof {
            let upto = all.take(i + 1);
            assert(upto.drop_last() =~= all.take(i as int));
            assert(upto.last() == arguments@[i as int]@);
        }
        if i > 0 {
            out.push(',');
            out.push(' ');
        }
        let argument = chars_of(arguments[i].as_str());
        push_all(&mut out, &argument, argument.len());
        proof {
            assert(argument@.take(argument@.len() as int) =~= argument@);
            if i > 0 {
                assert(out@ =~= head + (before + seq![',', ' '] + argument@));
            } else {
                assert(out@ =~= head + argument@);
            }
        }
        i = i + 1;
    }
    out.push(')');
    proof {
        assert(all.take(i as int) =~= all);
        assert(out@ =~= script_call_of(code@, all));
    }
    string_of(&out)
}

} // verus!
