//! Laws of the configuration record, stated over the spec functions that the
//! executable functions' contracts use.
use vstd::prelude::*;

use crate::config::{
    api_url, certificate_path, identity_endpoint, normalized, server_label,
    spec_default_lock_timeout, ConfigView,
};
use crate::text::{replaced, trimmed_end};

verus! {

/// Loading a record back whose lock timeout is positive changes nothing in it.
pub proof fn lemma_load_keeps_positive_timeout(c: ConfigView)
    requires
        c.lock_timeout > 0,
    ensures
        normalized(c) == c,
{
}

/// A record read with a zero lock timeout is loaded with the default of 3600
/// seconds and every other field as read.
pub proof fn lemma_load_defaults_zero_timeout(c: ConfigView)
    requires
        c.lock_timeout == 0,
    ensures
        normalized(c).lock_timeout == 3600,
        normalized(c) == (ConfigView { lock_timeout: spec_default_lock_timeout(), ..c }),
{
}

/// No loaded record has a zero lock timeout.
pub proof fn lemma_loaded_timeout_positive(c: ConfigView)
    ensures
        normalized(c).lock_timeout > 0,
{
}

/// A slash added at the end of the base URL changes neither the API
/// endpoint nor the identity endpoint derived from it.
pub proof fn lemma_trailing_slash_ignored(u: Seq<char>, identity_url: Option<Seq<char>>)
    ensures
        api_url(Some(u.push('/'))) == api_url(Some(u)),
        identity_endpoint(identity_url, Some(u.push('/'))) == identity_endpoint(
            identity_url,
            Some(u),
        ),
{
    assert(u.push('/').drop_last() =~= u);
    assert(trimmed_end(u.push('/'), '/') == trimmed_end(u, '/'));
}

/// An identity URL that is set is the identity endpoint as written, whatever
/// the base URL.
pub proof fn lemma_identity_url_overrides(i: Seq<char>, base_url: Option<Seq<char>>)
    ensures
        identity_endpoint(Some(i), base_url) == i,
{
}

/// The server's name is the base URL exactly as written: trailing slashes
/// are kept.
pub proof fn lemma_server_name_untransformed(u: Seq<char>)
    ensures
        server_label(Some(u)) == u,
        server_label(None) == "default"@,
{
}

/// Replacing in a text none of whose characters starts the pattern leaves
/// the text as it is.
pub proof fn lemma_replaced_absent(s: Seq<char>, from: Seq<char>, to: Seq<char>)
    requires
        from.len() > 0,
        forall|i: int| 0 <= i < s.len() ==> s[i] != from[0],
    ensures
        replaced(s, from, to) == s,
    decreases s.len(),
{
    if s.len() > 0 {
        if from.len() <= s.len() {
            assert(s.take(from.len() as int)[0] != from[0]);
        }
        lemma_replaced_absent(s.drop_first(), from, to);
        assert(seq![s[0]] + s.drop_first() =~= s);
    }
}

/// A certificate path made of `$HOME` and a rest without `$` resolves to the
/// home directory followed by that rest.
pub proof fn lemma_home_prefix_resolved(rest: Seq<char>, home: Seq<char>)
    requires
        forall|i: int| 0 <= i < rest.len() ==> rest[i] != '$',
    ensures
        certificate_path(Some("$HOME"@ + rest), home) == home + rest,
{
    reveal_strlit("$HOME");
    let s = "$HOME"@ + rest;
    assert(s.take(5) =~= "$HOME"@);
    assert(s.skip(5) =~= rest);
    lemma_replaced_absent(rest, "$HOME"@, home);
}

/// Without a root certificate the resolved path is empty, whatever the home
/// directory.
pub proof fn lemma_no_certificate_empty(home: Seq<char>)
    ensures
        certificate_path(None, home).len() == 0,
{
}

} // verus!
