//! Rewrite rules and the engine that applies them.
use vstd::prelude::*;
use vstd::slice::slice_to_vec;
use vstd::utf8::{decode_utf8, encode_utf8, valid_utf8};
use crate::external::{
    decode_utf8_text, header_name_of, header_value_valid, parse_header_name, regex_accepts,
    regex_replace_all, replace_all, value_text_allowed,
};
use crate::headers::{lemma_without_name_has_none, values_of, without_name, Headers};

verus! {

/// One configured transformation of a URL, a header or a body.
#[derive(Clone, Debug)]
pub struct RewriteRule {
    pub id: String,
    /// "url", "header" or "body".
    pub rule_type: String,
    /// A regular expression, or a literal header name for header rules.
    pub match_pattern: String,
    pub replace_with: String,
    /// "request" or "response".
    pub location: String,
    /// "replace", "delete" or "add"; read by header rules only.
    pub action: String,
    pub enabled: bool,
}

impl RewriteRule {
    /// The rule takes part in the given pass.
    pub open spec fn selected(&self, location: Seq<char>, kind: Seq<char>) -> bool {
        self.enabled && self.location@ == location && self.rule_type@ == kind
    }
}

/// The text after one rule's global regex replacement; a pattern that does
/// not compile leaves the text as it is.
pub open spec fn text_step(rule: RewriteRule, text: Seq<char>) -> Seq<char> {
    if regex_accepts(rule.match_pattern@) {
        regex_replace_all(rule.match_pattern@, text, rule.replace_with@)
    } else {
        text
    }
}

/// The text after every selected rule of `rules`, in order, each applied to
/// the output of the one before.
pub open spec fn text_after(rules: Seq<RewriteRule>, location: Seq<char>, kind: Seq<char>, text: Seq<char>) -> Seq<char>
    decreases rules.len(),
{
    if rules.len() == 0 {
        text
    } else {
        let prev = text_after(rules.drop_last(), location, kind, text);
        if rules.last().selected(location, kind) {
            text_step(rules.last(), prev)
        } else {
            prev
        }
    }
}

/// The header fields after one header rule. The pattern names a header
/// literally; a name or a value that HTTP refuses leaves the fields as they are.
pub open spec fn header_step(rule: RewriteRule, h: Seq<(Seq<char>, Seq<u8>)>) -> Seq<(Seq<char>, Seq<u8>)> {
    match header_name_of(rule.match_pattern@) {
        None => h,
        Some(n) => {
            if rule.action@ == "add"@ || rule.action@ == "replace"@ {
                if value_text_allowed(rule.replace_with@) {
                    let field = (n, encode_utf8(rule.replace_with@));
                    if rule.action@ == "add"@ {
                        h.push(field)
                    } else {
                        without_name(h, n).push(field)
                    }
                } else {
                    h
                }
            } else if rule.action@ == "delete"@ {
                without_name(h, n)
            } else {
                h
            }
        },
    }
}

/// The header fields after every selected header rule, in order.
pub open spec fn headers_after(rules: Seq<RewriteRule>, location: Seq<char>, h: Seq<(Seq<char>, Seq<u8>)>) -> Seq<(Seq<char>, Seq<u8>)>
    decreases rules.len(),
{
    if rules.len() == 0 {
        h
    } else {
        let prev = headers_after(rules.drop_last(), location, h);
        if rules.last().selected(location, "header"@) {
            header_step(rules.last(), prev)
        } else {
            prev
        }
    }
}

/// The body after one body rule: the regex replacement over its text, where
/// it is UTF-8 and the pattern compiles; else the bytes unchanged.
pub open spec fn body_step(rule: RewriteRule, b: Seq<u8>) -> Seq<u8> {
    if valid_utf8(b) && regex_accepts(rule.match_pattern@) {
        encode_utf8(regex_replace_all(rule.match_pattern@, decode_utf8(b), rule.replace_with@))
    } else {
        b
    }
}

/// The body after every selected body rule, in order.
pub open spec fn body_after(rules: Seq<RewriteRule>, location: Seq<char>, b: Seq<u8>) -> Seq<u8>
    decreases rules.len(),
{
    if rules.len() == 0 {
        b
    } else {
        let prev = body_after(rules.drop_last(), location, b);
        if rules.last().selected(location, "body"@) {
            body_step(rules.last(), prev)
        } else {
            prev
        }
    }
}

/// Where no rule of the set is selected for a location and a kind, the URL,
/// header and body passes of that location leave their input unchanged.
pub proof fn lemma_no_selected_rule_is_identity(
    rules: Seq<RewriteRule>,
    location: Seq<char>,
    text: Seq<char>,
    h: Seq<(Seq<char>, Seq<u8>)>,
    b: Seq<u8>,
)
    ensures
        (forall|i: int| 0 <= i < rules.len() ==> !(#[trigger] rules[i]).selected(location, "url"@))
            ==> text_after(rules, location, "url"@, text) == text,
        (forall|i: int| 0 <= i < rules.len() ==> !(#[trigger] rules[i]).selected(location, "header"@))
            ==> headers_after(rules, location, h) == h,
        (forall|i: int| 0 <= i < rules.len() ==> !(#[trigger] rules[i]).selected(location, "body"@))
            ==> body_after(rules, location, b) == b,
    decreases rules.len(),
{
    if rules.len() > 0 {
        lemma_no_selected_rule_is_identity(rules.drop_last(), location, text, h, b);
        let last = rules.len() - 1;
        assert(rules[last] == rules.last());
        assert forall|i: int| 0 <= i < rules.drop_last().len() implies rules.drop_last()[i] == rules[i] by {}
    }
}

/// A selected delete rule leaves no field under the name it gives, whatever
/// the values and however many fields carried that name.
pub proof fn lemma_delete_rule_removes_every_field(
    rule: RewriteRule,
    location: Seq<char>,
    h: Seq<(Seq<char>, Seq<u8>)>,
)
    requires
        rule.selected(location, "header"@),
        rule.action@ == "delete"@,
        header_name_of(rule.match_pattern@) is Some,
    ensures
        forall|i: int|
            0 <= i < headers_after(seq![rule], location, h).len()
                ==> (#[trigger] headers_after(seq![rule], location, h)[i]).0 != header_name_of(rule.match_pattern@)->Some_0,
        headers_after(seq![rule], location, h) == without_name(h, header_name_of(rule.match_pattern@)->Some_0),
{
    let n = header_name_of(rule.match_pattern@)->Some_0;
    assert(seq![rule].drop_last() =~= Seq::<RewriteRule>::empty());
    assert("delete"@ != "add"@) by {
        reveal_strlit("delete");
        reveal_strlit("add");
        assert("delete"@.len() != "add"@.len());
    }
    assert("delete"@ != "replace"@) by {
        reveal_strlit("delete");
        reveal_strlit("replace");
        assert("delete"@.len() != "replace"@.len());
    }
    assert(headers_after(seq![rule], location, h) == header_step(rule, headers_after(Seq::<RewriteRule>::empty(), location, h)));
    lemma_without_name_has_none(h, n);
}

/// Two selected add rules on one header name append their two values after
/// the existing fields, the first rule's value first.
pub proof fn lemma_add_rules_keep_order(
    first: RewriteRule,
    second: RewriteRule,
    location: Seq<char>,
    h: Seq<(Seq<char>, Seq<u8>)>,
)
    requires
        first.selected(location, "header"@),
        second.selected(location, "header"@),
        first.action@ == "add"@,
        second.action@ == "add"@,
        first.match_pattern@ == second.match_pattern@,
        header_name_of(first.match_pattern@) is Some,
        value_text_allowed(first.replace_with@),
        value_text_allowed(second.replace_with@),
    ensures
        ({
            let n = header_name_of(first.match_pattern@)->Some_0;
            headers_after(seq![first, second], location, h) == h.push((n, encode_utf8(first.replace_with@))).push(
                (n, encode_utf8(second.replace_with@)),
            )
        }),
        values_of(headers_after(seq![first, second], location, h), header_name_of(first.match_pattern@)->Some_0)
            == values_of(h, header_name_of(first.match_pattern@)->Some_0).push(encode_utf8(first.replace_with@)).push(
            encode_utf8(second.replace_with@),
        ),
{
    let n = header_name_of(first.match_pattern@)->Some_0;
    let rs = seq![first, second];
    assert(rs.drop_last() =~= seq![first]);
    assert(seq![first].drop_last() =~= Seq::<RewriteRule>::empty());
    let h1 = h.push((n, encode_utf8(first.replace_with@)));
    let h2 = h1.push((n, encode_utf8(second.replace_with@)));
    assert(headers_after(Seq::<RewriteRule>::empty(), location, h) == h);
    assert(headers_after(seq![first], location, h) == header_step(first, h));
    assert(header_step(first, h) == h1);
    assert(headers_after(rs, location, h) == header_step(second, headers_after(seq![first], location, h)));
    assert(header_step(second, h1) == h2);
    assert(h2.drop_last() =~= h1);
    assert(h1.drop_last() =~= h);
    assert(values_of(h1, n) == values_of(h, n).push(encode_utf8(first.replace_with@)));
}

/// A body that is not valid UTF-8 comes out of every body pass byte for byte.
pub proof fn lemma_non_utf8_body_unchanged(rules: Seq<RewriteRule>, location: Seq<char>, b: Seq<u8>)
    requires
        !valid_utf8(b),
    ensures
        body_after(rules, location, b) == b,
    decreases rules.len(),
{
    if rules.len() > 0 {
        lemma_non_utf8_body_unchanged(rules.drop_last(), location, b);
    }
}

/// Selected body rules act one after the other: the second sees what the
/// first produced.
pub proof fn lemma_body_rules_chain(first: RewriteRule, second: RewriteRule, location: Seq<char>, b: Seq<u8>)
    requires
        first.selected(location, "body"@),
        second.selected(location, "body"@),
    ensures
        body_after(seq![first, second], location, b) == body_step(second, body_step(first, b)),
{
    assert(seq![first, second].drop_last() =~= seq![first]);
    assert(seq![first].drop_last() =~= Seq::<RewriteRule>::empty());
    assert(body_after(Seq::<RewriteRule>::empty(), location, b) == b);
    assert(body_after(seq![first], location, b) == body_step(first, b));
    assert(body_after(seq![first, second], location, b) == body_step(second, body_after(seq![first], location, b)));
}

/// Holds the current snapshot of rules, in the order in which they were stored.
pub struct RewriteManager {
    rules: Vec<RewriteRule>,
}

impl RewriteManager {
    pub closed spec fn rules(&self) -> Seq<RewriteRule> {
        self.rules@
    }

    /// A manager with no rules.
    pub fn new() -> (r: Self)
        ensures
            r.rules() == Seq::<RewriteRule>::empty(),
    {
        RewriteManager { rules: Vec::new() }
    }

    /// Replaces the whole snapshot at once.
    pub fn load_rules(&mut self, rules: Vec<RewriteRule>)
        ensures
            final(self).rules() == rules@,
    {
        self.rules = rules;
    }

    fn is_selected(rule: &RewriteRule, location: &str, kind: &str) -> (r: bool)
        ensures
            r == rule.selected(location@, kind@),
    {
        rule.enabled && rule.location == location.to_string() && rule.rule_type == kind.to_string()
    }

    /// Applies the URL rules of `location` to `url`.
    pub fn apply_url(&self, location: &str, url: &str) -> (r: String)
        ensures
            r@ == text_after(self.rules(), location@, "url"@, url@),
    {
        let mut cur = url.to_string();
        let mut i: usize = 0;
        while i < self.rules.len()
            invariant
                i <= self.rules@.len(),
                cur@ == text_after(self.rules@.take(i as int), location@, "url"@, url@),
            decreases self.rules@.len() - i,
        {
            let rule = &self.rules[i];
            proof {
                assert(self.rules@.take(i + 1).drop_last() =~= self.rules@.take(i as int));
            }
            if Self::is_selected(rule, location, "url") {
                if let Some(next) = replace_all(rule.match_pattern.as_str(), cur.as_str(), rule.replace_with.as_str()) {
                    cur = next;
                }
            }
            i = i + 1;
        }
        proof {
            assert(self.rules@.take(i as int) =~= self.rules@);
        }
        cur
    }
    /// Applies one header rule.
    fn apply_header_rule(rule: &RewriteRule, headers: &mut Headers)
        ensures
            final(headers)@ == header_step(*rule, old(headers)@),
    {
        if let Some(name) = parse_header_name(rule.match_pattern.as_str()) {
            let is_add = rule.action == "add".to_string();
            if is_add || rule.action == "replace".to_string() {
                if header_value_valid(rule.replace_with.as_str()) {
                    let value = slice_to_vec(rule.replace_with.as_str().as_bytes());
                    if !is_add {
                        headers.remove_all(&name);
                    }
                    headers.append(name, value);
                }
            } else if rule.action == "delete".to_string() {
                headers.remove_all(&name);
            }
        }
    }

    /// Applies the header rules of `location` to `headers`.
    pub fn apply_headers(&self, location: &str, headers: &mut Headers)
        ensures
            final(headers)@ == headers_after(self.rules(), location@, old(headers)@),
    {
        let ghost h0 = headers@;
        let mut i: usize = 0;
        while i < self.rules.len()
            invariant
                i <= self.rules@.len(),
                headers@ == headers_after(self.rules@.take(i as int), location@, h0),
            decreases self.rules@.len() - i,
        {
            let rule = &self.rules[i];
            proof {
                assert(self.rules@.take(i + 1).drop_last() =~= self.rules@.take(i as int));
            }
            if Self::is_selected(rule, location, "header") {
                Self::apply_header_rule(rule, headers);
            }
            i = i + 1;
        }
        proof {
            assert(self.rules@.take(i as int) =~= self.rules@);
        }
    }

    /// Applies one body rule.
    fn apply_body_rule(rule: &RewriteRule, body: Vec<u8>) -> (r: Vec<u8>)
        ensures
            r@ == body_step(*rule, body@),
    {
        if let Some(text) = decode_utf8_text(&body) {
            if let Some(out) = replace_all(rule.match_pattern.as_str(), text.as_str(), rule.replace_with.as_str()) {
                return slice_to_vec(out.as_str().as_bytes());
            }
        }
        body
    }

    /// Applies the body rules of `location` to `body`.
    pub fn apply_body(&self, location: &str, body: Vec<u8>) -> (r: Vec<u8>)
        ensures
            r@ == body_after(self.rules(), location@, body@),
    {
        let ghost b0 = body@;
        let mut cur = body;
        let mut i: usize = 0;
        while i < self.rules.len()
            invariant
                i <= self.rules@.len(),
                cur@ == body_after(self.rules@.take(i as int), location@, b0),
            decreases self.rules@.len() - i,
        {
            let rule = &self.rules[i];
            proof {
                assert(self.rules@.take(i + 1).drop_last() =~= self.rules@.take(i as int));
            }
            if Self::is_selected(rule, location, "body") {
                cur = Self::apply_body_rule(rule, cur);
            }
            i = i + 1;
        }
        proof {
            assert(self.rules@.take(i as int) =~= self.rules@);
        }
        cur
    }

    /// The request's URL after the request-side URL rules.
    pub fn apply_request_url(&self, url: &str) -> (r: String)
        ensures
            r@ == text_after(self.rules(), "request"@, "url"@, url@),
    {
        self.apply_url("request", url)
    }

    /// The request's header fields after the request-side header rules.
    pub fn apply_request_headers(&self, headers: &mut Headers)
        ensures
            final(headers)@ == headers_after(self.rules(), "request"@, old(headers)@),
    {
        self.apply_headers("request", headers)
    }

    /// The request body after the request-side body rules.
    pub fn apply_request_body(&self, body: Vec<u8>) -> (r: Vec<u8>)
        ensures
            r@ == body_after(self.rules(), "request"@, body@),
    {
        self.apply_body("request", body)
    }

    /// The response's header fields after the response-side header rules.
    pub fn apply_response_headers(&self, headers: &mut Headers)
        ensures
            final(headers)@ == headers_after(self.rules(), "response"@, old(headers)@),
    {
        self.apply_headers("response", headers)
    }

    /// The response body after the response-side body rules.
    pub fn apply_response_body(&self, body: Vec<u8>) -> (r: Vec<u8>)
        ensures
            r@ == body_after(self.rules(), "response"@, body@),
    {
        self.apply_body("response", body)
    }
}

} // verus!
