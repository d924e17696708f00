//! Request descriptors for the three query kinds.
//!
//! A descriptor is the ordered parameter set of one `action=query` request,
//! with every title already percent-encoded.  The builders fill in the
//! fixed parameter set of each module; the pagination driver advances a
//! descriptor in place by merging the server's continuation parameters.

use vstd::prelude::*;

use crate::url::{encode_unsafe_url_chars, percent_encode};
use vstd::string::StringSliceAdditionalSpecFns;
use vstd::string::StringExecFns;

verus! {

/// A key-value parameter pair at the spec level.
pub type ParamView = (Seq<char>, Seq<char>);

/// The continuation block of a paginated response: an opaque key-value
/// mapping that must be threaded unchanged into the next request.
#[derive(Debug)]
pub struct ContinuationToken {
    pub pairs: Vec<(String, String)>,
}

impl DeepView for ContinuationToken {
    type V = Seq<ParamView>;

    open spec fn deep_view(&self) -> Seq<ParamView> {
        self.pairs.deep_view()
    }
}

/// One request's parameter set, in order.
#[derive(Debug)]
pub struct QueryDescriptor {
    pub params: Vec<(String, String)>,
}

impl DeepView for QueryDescriptor {
    type V = Seq<ParamView>;

    open spec fn deep_view(&self) -> Seq<ParamView> {
        self.params.deep_view()
    }
}

/// The parameters every query starts from: the query action, with the
/// format forced to JSON.
pub open spec fn base_params() -> Seq<ParamView> {
    seq![("action"@, "query"@), ("format"@, "json"@)]
}

/// The fixed parameter set of a category listing by prefix.
pub open spec fn all_categories_params(encoded: Seq<char>) -> Seq<ParamView> {
    base_params() + seq![
        ("list"@, "allcategories"@),
        ("acmin"@, "1"@),
        ("aclimit"@, "20"@),
        ("acprop"@, "size"@),
        ("acprefix"@, encoded),
    ]
}

/// The fixed parameter set of a category membership listing.
pub open spec fn category_members_params(encoded: Seq<char>) -> Seq<ParamView> {
    base_params() + seq![
        ("list"@, "categorymembers"@),
        ("cmtitle"@, encoded),
        ("cmtype"@, "page|subcat"@),
        ("cmprop"@, "ids|title|type|timestamp"@),
        ("cmlimit"@, "500"@),
    ]
}

/// The fixed parameter set of a page details query.
pub open spec fn details_params(encoded: Seq<char>) -> Seq<ParamView> {
    base_params() + seq![
        ("prop"@, "info|extracts"@),
        ("titles"@, encoded),
        ("inprop"@, "url|displaytitle"@),
        ("exchars"@, "1000"@),
        ("exlimit"@, "1"@),
        ("explaintext"@, "1"@),
    ]
}

fn push_param(params: &mut Vec<(String, String)>, key: &str, value: String)
    ensures
        final(params).deep_view() == old(params).deep_view().push((key@, value@)),
{
    let ghost prev = params.deep_view();
    params.push((String::from_str(key), value));
    proof {
        assert(params.deep_view() =~= prev.push((key@, value@)));
    }
}

/// Build the request descriptor that lists categories by prefix.
pub fn all_categories_query(category: &str) -> (q: QueryDescriptor)
    ensures
        q.deep_view() == all_categories_params(percent_encode(category.spec_bytes())),
{
    let encoded = encode_unsafe_url_chars(category);
    let mut params: Vec<(String, String)> = Vec::new();
    push_param(&mut params, "action", String::from_str("query"));
    push_param(&mut params, "format", String::from_str("json"));
    push_param(&mut params, "list", String::from_str("allcategories"));
    push_param(&mut params, "acmin", String::from_str("1"));
    push_param(&mut params, "aclimit", String::from_str("20"));
    push_param(&mut params, "acprop", String::from_str("size"));
    push_param(&mut params, "acprefix", encoded);
    proof {
        assert(params.deep_view() =~= all_categories_params(
            percent_encode(category.spec_bytes()),
        ));
    }
    QueryDescriptor { params }
}

/// Build the request descriptor that lists the members of one category,
/// both its pages and its subcategories.
pub fn category_members_query(category: &str) -> (q: QueryDescriptor)
    ensures
        q.deep_view() == category_members_params(percent_encode(category.spec_bytes())),
{
    let encoded = encode_unsafe_url_chars(category);
    let mut params: Vec<(String, String)> = Vec::new();
    push_param(&mut params, "action", String::from_str("query"));
    push_param(&mut params, "format", String::from_str("json"));
    push_param(&mut params, "list", String::from_str("categorymembers"));
    push_param(&mut params, "cmtitle", encoded);
    push_param(&mut params, "cmtype", String::from_str("page|subcat"));
    push_param(&mut params, "cmprop", String::from_str("ids|title|type|timestamp"));
    push_param(&mut params, "cmlimit", String::from_str("500"));
    proof {
        assert(params.deep_view() =~= category_members_params(
            percent_encode(category.spec_bytes()),
        ));
    }
    QueryDescriptor { params }
}

/// Build the request descriptor that fetches one article's details.
pub fn details_query(article: &str) -> (q: QueryDescriptor)
    ensures
        q.deep_view() == details_params(percent_encode(article.spec_bytes())),
{
    let encoded = encode_unsafe_url_chars(article);
    let mut params: Vec<(String, String)> = Vec::new();
    push_param(&mut params, "action", String::from_str("query"));
    push_param(&mut params, "format", String::from_str("json"));
    push_param(&mut params, "prop", String::from_str("info|extracts"));
    push_param(&mut params, "titles", encoded);
    push_param(&mut params, "inprop", String::from_str("url|displaytitle"));
    push_param(&mut params, "exchars", String::from_str("1000"));
    push_param(&mut params, "exlimit", String::from_str("1"));
    push_param(&mut params, "explaintext", String::from_str("1"));
    proof {
        assert(params.deep_view() =~= details_params(percent_encode(article.spec_bytes())));
    }
    QueryDescriptor { params }
}

/// The parameter set after one key is given a value: the first pair with
/// that key is replaced in place, or the pair is appended at the end.
pub open spec fn set_param_spec(ps: Seq<ParamView>, k: Seq<char>, v: Seq<char>) -> Seq<ParamView>
    decreases ps.len(),
{
    if ps.len() == 0 {
        seq![(k, v)]
    } else if ps[0].0 == k {
        seq![(k, v)] + ps.drop_first()
    } else {
        seq![ps[0]] + set_param_spec(ps.drop_first(), k, v)
    }
}

/// The parameter set after a whole continuation block is merged in, pair
/// by pair in the block's order.
pub open spec fn merge_params_spec(ps: Seq<ParamView>, token: Seq<ParamView>) -> Seq<ParamView>
    decreases token.len(),
{
    if token.len() == 0 {
        ps
    } else {
        merge_params_spec(set_param_spec(ps, token[0].0, token[0].1), token.drop_first())
    }
}

proof fn lemma_set_param_absent(ps: Seq<ParamView>, k: Seq<char>, v: Seq<char>)
    requires
        forall|i: int| 0 <= i < ps.len() ==> (#[trigger] ps[i]).0 != k,
    ensures
        set_param_spec(ps, k, v) =~= ps.push((k, v)),
    decreases ps.len(),
{
    if ps.len() == 0 {
    } else {
        lemma_set_param_absent(ps.drop_first(), k, v);
    }
}

proof fn lemma_set_param_found(ps: Seq<ParamView>, k: Seq<char>, v: Seq<char>, j: int)
    requires
        0 <= j < ps.len(),
        ps[j].0 == k,
        forall|i: int| 0 <= i < j ==> (#[trigger] ps[i]).0 != k,
    ensures
        set_param_spec(ps, k, v) =~= ps.update(j, (k, v)),
    decreases ps.len(),
{
    if j == 0 {
        assert(set_param_spec(ps, k, v) =~= ps.update(0, (k, v)));
    } else {
        lemma_set_param_found(ps.drop_first(), k, v, j - 1);
        assert(ps.drop_first().update(j - 1, (k, v)) =~= ps.update(j, (k, v)).drop_first());
        assert(set_param_spec(ps, k, v) =~= ps.update(j, (k, v)));
    }
}

proof fn lemma_merge_params_snoc(ps: Seq<ParamView>, token: Seq<ParamView>, p: ParamView)
    ensures
        merge_params_spec(ps, token.push(p)) == set_param_spec(
            merge_params_spec(ps, token),
            p.0,
            p.1,
        ),
    decreases token.len(),
{
    if token.len() == 0 {
        assert(token.push(p).drop_first() =~= Seq::<ParamView>::empty());
        assert(merge_params_spec(ps, token.push(p)) == merge_params_spec(
            set_param_spec(ps, p.0, p.1),
            Seq::<ParamView>::empty(),
        ));
    } else {
        assert(token.push(p).drop_first() =~= token.drop_first().push(p));
        lemma_merge_params_snoc(set_param_spec(ps, token[0].0, token[0].1), token.drop_first(), p);
    }
}

impl QueryDescriptor {
    /// Give one parameter a value: replace the first pair with that key,
    /// or append the pair at the end.
    pub fn set_param(&mut self, key: String, value: String)
        ensures
            final(self).deep_view() == set_param_spec(old(self).deep_view(), key@, value@),
    {
        let ghost ps = old(self).deep_view();
        let mut i: usize = 0;
        while i < self.params.len()
            invariant
                i <= self.params@.len(),
                ps == old(self).deep_view(),
                self.deep_view() == ps,
                self.params@.len() == ps.len(),
                forall|j: int| 0 <= j < i ==> (#[trigger] ps[j]).0 != key@,
            decreases self.params@.len() - i,
        {
            if self.params[i].0 == key {
                proof {
                    assert(ps[i as int] == self.params@[i as int].deep_view());
                    assert(ps[i as int].0 == key@);
                }
                let ghost before = self.params@;
                self.params.remove(i);
                let ghost removed = self.params@;
                self.params.insert(i, (key, value));
                proof {
                    assert(removed =~= before.remove(i as int));
                    assert(self.params@ =~= before.remove(i as int).insert(
                        i as int,
                        (key, value),
                    ));
                    assert(self.deep_view() =~= ps.update(i as int, (key@, value@)));
                    lemma_set_param_found(ps, key@, value@, i as int);
                    assert(self.deep_view() == set_param_spec(ps, key@, value@));
                }
                return ;
            }
            proof {
                assert(ps[i as int] == self.params@[i as int].deep_view());
            }
            i = i + 1;
        }
        let ghost prev = self.deep_view();
        self.params.push((key, value));
        proof {
            assert(self.deep_view() =~= prev.push((key@, value@)));
            lemma_set_param_absent(ps, key@, value@);
        }
    }

    /// Merge a continuation block into this descriptor, pair by pair in
    /// the block's order, so the next request resumes the listing.
    pub fn continue_query(&mut self, token: &ContinuationToken)
        ensures
            final(self).deep_view() == merge_params_spec(
                old(self).deep_view(),
                token.deep_view(),
            ),
    {
        let ghost ps = old(self).deep_view();
        let ghost tok = token.deep_view();
        let mut i: usize = 0;
        while i < token.pairs.len()
            invariant
                i <= token.pairs@.len(),
                ps == old(self).deep_view(),
                tok == token.deep_view(),
                self.deep_view() == merge_params_spec(ps, tok.take(i as int)),
            decreases token.pairs@.len() - i,
        {
            let k = token.pairs[i].0.clone();
            let v = token.pairs[i].1.clone();
            proof {
                assert(tok[i as int] == token.pairs@[i as int].deep_view());
                assert(tok.take(i as int + 1) =~= tok.take(i as int).push(tok[i as int]));
                lemma_merge_params_snoc(ps, tok.take(i as int), tok[i as int]);
            }
            self.set_param(k, v);
            i = i + 1;
        }
        proof {
            assert(tok.take(tok.len() as int) =~= tok);
        }
    }

    /// How the rendered query string grows by one more pair.
    pub open spec fn rendered_pair(p: ParamView) -> Seq<char> {
        p.0 + seq!['='] + p.1
    }

    /// The query string of a parameter set: the pairs as `key=value`,
    /// joined with `&`, in order.
    pub open spec fn rendered_params(ps: Seq<ParamView>) -> Seq<char>
        decreases ps.len(),
    {
        if ps.len() == 0 {
            Seq::empty()
        } else if ps.len() == 1 {
            Self::rendered_pair(ps[0])
        } else {
            Self::rendered_pair(ps[0]) + seq!['&'] + Self::rendered_params(ps.drop_first())
        }
    }

    /// Render this descriptor as the query-string part of a request URL.
    pub fn to_query_string(&self) -> (r: String)
        ensures
            r@ == Self::rendered_params(self.deep_view()),
    {
        let ghost ps = self.deep_view();
        let mut out: String = String::new();
        let mut i: usize = 0;
        while i < self.params.len()
            invariant
                i <= self.params@.len(),
                ps == self.deep_view(),
                out@ == Self::rendered_params(ps.take(i as int)),
            decreases self.params@.len() - i,
        {
            if i > 0 {
                crate::url::push_char(&mut out, '&');
            }
            out.append(self.params[i].0.as_str());
            crate::url::push_char(&mut out, '=');
            out.append(self.params[i].1.as_str());
            proof {
                assert(ps[i as int] == self.params@[i as int].deep_view());
                assert(ps.take(i as int + 1) =~= ps.take(i as int).push(ps[i as int]));
                Self::lemma_rendered_params_snoc(ps.take(i as int), ps[i as int]);
                assert(out@ =~= Self::rendered_params(ps.take(i as int + 1)));
            }
            i = i + 1;
        }
        proof {
            assert(ps.take(ps.len() as int) =~= ps);
        }
        out
    }

    proof fn lemma_rendered_params_snoc(ps: Seq<ParamView>, p: ParamView)
        ensures
            Self::rendered_params(ps.push(p)) == if ps.len() == 0 {
                Self::rendered_pair(p)
            } else {
                Self::rendered_params(ps) + seq!['&'] + Self::rendered_pair(p)
            },
        decreases ps.len(),
    {
        if ps.len() == 0 {
            assert(ps.push(p)[0] == p);
            assert(Self::rendered_params(ps.push(p)) == Self::rendered_pair(p));
        } else if ps.len() == 1 {
            assert(ps.push(p).drop_first() =~= seq![p]);
            assert(ps.push(p)[0] == ps[0]);
            assert(seq![p][0] == p);
            assert(Self::rendered_params(seq![p]) == Self::rendered_pair(p));
            assert(Self::rendered_params(ps.push(p)) == Self::rendered_pair(ps[0]) + seq!['&']
                + Self::rendered_pair(p));
        } else {
            assert(ps.push(p)[0] == ps[0]);
            assert(ps.push(p).drop_first() =~= ps.drop_first().push(p));
            Self::lemma_rendered_params_snoc(ps.drop_first(), p);
            assert(Self::rendered_params(ps) + seq!['&'] + Self::rendered_pair(p)
                =~= Self::rendered_pair(ps[0]) + seq!['&'] + (Self::rendered_params(
                ps.drop_first(),
            ) + seq!['&'] + Self::rendered_pair(p)));
        }
    }
}

} // verus!
