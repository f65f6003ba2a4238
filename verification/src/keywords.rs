//! Session keywords and keyword search: which keyword changes an action list
//! makes, how a search query becomes patterns, and which keywords a result
//! matches. Keyword weights stay with the caller.
use vstd::prelude::*;
use vstd::string::StringExecFns;
use crate::sessions::{kind_text, DispatcherSessionKind};
use crate::text::{
    chars_of, clone_opt, contains_text, lemma_trim_idempotent, occurs_at, lowercase, str_contains, str_eq,
    string_of_chars, string_views, to_lowercase, trim, trim_str, trimmed,
};

verus! {

broadcast use vstd::string::group_string_axioms;

/// How one character stands in a LIKE pattern that matches it literally.
pub open spec fn like_escape_char(c: char) -> Seq<char> {
    if c == '\\' {
        seq!['\\', '\\']
    } else if c == '%' {
        seq!['\\', '%']
    } else if c == '_' {
        seq!['\\', '_']
    } else {
        seq![c]
    }
}

/// `s` with LIKE's wildcards and escape character escaped.
pub open spec fn like_escaped(s: Seq<char>) -> Seq<char>
    decreases s.len(),
{
    if s.len() == 0 {
        Seq::empty()
    } else {
        like_escaped(s.drop_last()) + like_escape_char(s.last())
    }
}

pub fn escape_like(value: &str) -> (r: String)
    ensures
        r@ == like_escaped(value@),
{
    let mut out: Vec<char> = Vec::new();
    for c in it: value.chars()
        invariant
            it.seq() == value@,
            out@ == like_escaped(value@.take(it.index() as int)),
    {
        proof {
            assert(value@.take(it.index() + 1).drop_last() =~= value@.take(it.index() as int));
        }
        let ghost before = out@;
        if c == '\\' || c == '%' || c == '_' {
            out.push('\\');
        }
        out.push(c);
        proof {
            assert(out@ =~= before + like_escape_char(c));
        }
    }
    proof {
        assert(value@.take(value@.len() as int) =~= value@);
    }
    string_of_chars(&out)
}

/// Whether a LIKE pattern (with `\` as its escape character) holds no
/// wildcard: every `%` and `_` is escaped, and no escape is left dangling.
pub open spec fn like_literal(p: Seq<char>) -> bool
    decreases p.len(),
{
    if p.len() == 0 {
        true
    } else if p[0] == '\\' {
        p.len() >= 2 && like_literal(p.subrange(2, p.len() as int))
    } else if p[0] == '%' || p[0] == '_' {
        false
    } else {
        like_literal(p.subrange(1, p.len() as int))
    }
}

/// The text a wildcard-free LIKE pattern matches.
pub open spec fn like_unescape(p: Seq<char>) -> Seq<char>
    decreases p.len(),
{
    if p.len() == 0 {
        Seq::empty()
    } else if p[0] == '\\' && p.len() >= 2 {
        seq![p[1]] + like_unescape(p.subrange(2, p.len() as int))
    } else {
        seq![p[0]] + like_unescape(p.subrange(1, p.len() as int))
    }
}

proof fn lemma_like_concat(a: Seq<char>, b: Seq<char>)
    requires
        like_literal(a),
        like_literal(b),
    ensures
        like_literal(a + b),
        like_unescape(a + b) == like_unescape(a) + like_unescape(b),
    decreases a.len(),
{
    if a.len() == 0 {
        assert(a + b =~= b);
    } else if a[0] == '\\' {
        let t = a.subrange(2, a.len() as int);
        lemma_like_concat(t, b);
        assert((a + b).subrange(2, (a + b).len() as int) =~= t + b);
        assert((a + b)[1] == a[1]);
    } else {
        let t = a.subrange(1, a.len() as int);
        lemma_like_concat(t, b);
        assert((a + b).subrange(1, (a + b).len() as int) =~= t + b);
    }
}

proof fn lemma_escape_char(c: char)
    ensures
        like_literal(like_escape_char(c)),
        like_unescape(like_escape_char(c)) == seq![c],
{
    reveal_with_fuel(like_literal, 2);
    reveal_with_fuel(like_unescape, 2);
    let e = like_escape_char(c);
    if c == '\\' || c == '%' || c == '_' {
        assert(e.subrange(2, 2) =~= Seq::<char>::empty());
        assert(like_unescape(e) =~= seq![e[1]] + like_unescape(e.subrange(2, 2)));
    } else {
        assert(e.subrange(1, 1) =~= Seq::<char>::empty());
        assert(like_unescape(e) =~= seq![e[0]] + like_unescape(e.subrange(1, 1)));
    }
}

/// An escaped query holds no wildcard, and LIKE matches exactly the query
/// text with it: `%` and `_` in a query are searched for literally.
pub proof fn law_escaped_query_is_literal(s: Seq<char>)
    ensures
        like_literal(like_escaped(s)),
        like_unescape(like_escaped(s)) == s,
    decreases s.len(),
{
    if s.len() > 0 {
        let c = s.last();
        law_escaped_query_is_literal(s.drop_last());
        lemma_escape_char(c);
        lemma_like_concat(like_escaped(s.drop_last()), like_escape_char(c));
        assert(s.drop_last() + seq![c] =~= s);
    } else {
        assert(like_escaped(s) =~= Seq::<char>::empty());
    }
}

/// A keyword action as the caller hands it over, without its weight.
#[derive(Debug, Clone)]
pub struct KeywordActionRequest {
    pub action: String,
    pub keyword: Option<String>,
    pub from: Option<Vec<String>>,
    pub to: Option<String>,
}

/// One change to a session's keywords. A weight, when the change adds one,
/// is that of action `action_index`.
#[derive(Debug, Clone)]
pub enum KeywordOp {
    /// Add the keyword, or add to its weight when it exists.
    Upsert { keyword: String, action_index: usize },
    /// Remove the keyword.
    Delete { keyword: String },
}

/// The mathematical value of a keyword change.
pub enum KeywordOpView {
    Upsert { keyword: Seq<char>, action_index: nat },
    Delete { keyword: Seq<char> },
}

impl View for KeywordOp {
    type V = KeywordOpView;

    open spec fn view(&self) -> KeywordOpView {
        match self {
            KeywordOp::Upsert { keyword, action_index } => KeywordOpView::Upsert {
                keyword: keyword@,
                action_index: *action_index as nat,
            },
            KeywordOp::Delete { keyword } => KeywordOpView::Delete { keyword: keyword@ },
        }
    }
}

pub open spec fn op_views(s: Seq<KeywordOp>) -> Seq<KeywordOpView> {
    s.map_values(|o: KeywordOp| o@)
}

/// Deletions of each non-blank source keyword, trimmed, in order.
pub open spec fn merge_deletions(from: Seq<String>) -> Seq<KeywordOpView>
    decreases from.len(),
{
    if from.len() == 0 {
        Seq::empty()
    } else {
        let rest = merge_deletions(from.drop_last());
        let k = trim(from.last()@);
        if k.len() == 0 {
            rest
        } else {
            rest.push(KeywordOpView::Delete { keyword: k })
        }
    }
}

/// The changes one action makes: `add` adds its trimmed keyword, `remove`
/// removes it, `merge` removes each source keyword and adds the target
/// (only when the target is not blank), `keep` and anything else change
/// nothing; a blank or missing keyword changes nothing.
pub open spec fn action_ops(a: KeywordActionRequest, index: nat) -> Seq<KeywordOpView> {
    if a.action@ == "add"@ {
        match a.keyword {
            Some(k) => if trim(k@).len() > 0 {
                seq![KeywordOpView::Upsert { keyword: trim(k@), action_index: index }]
            } else {
                Seq::empty()
            },
            None => Seq::empty(),
        }
    } else if a.action@ == "remove"@ {
        match a.keyword {
            Some(k) => if trim(k@).len() > 0 {
                seq![KeywordOpView::Delete { keyword: trim(k@) }]
            } else {
                Seq::empty()
            },
            None => Seq::empty(),
        }
    } else if a.action@ == "merge"@ {
        match a.to {
            Some(t) => if trim(t@).len() > 0 {
                (match a.from {
                    Some(f) => merge_deletions(f@),
                    None => Seq::empty(),
                }).push(KeywordOpView::Upsert { keyword: trim(t@), action_index: index })
            } else {
                Seq::empty()
            },
            None => Seq::empty(),
        }
    } else {
        Seq::empty()
    }
}

/// The changes of all actions, in order.
pub open spec fn actions_ops(actions: Seq<KeywordActionRequest>) -> Seq<KeywordOpView>
    decreases actions.len(),
{
    if actions.len() == 0 {
        Seq::empty()
    } else {
        actions_ops(actions.drop_last()) + action_ops(actions.last(), (actions.len() - 1) as nat)
    }
}


/// The keyword a change names.
pub open spec fn op_keyword(o: KeywordOpView) -> Seq<char> {
    match o {
        KeywordOpView::Upsert { keyword, .. } => keyword,
        KeywordOpView::Delete { keyword } => keyword,
    }
}

/// Whether a keyword is stored as it should be: trimmed and not blank.
pub open spec fn clean_keyword(k: Seq<char>) -> bool {
    k.len() > 0 && trim(k) == k
}

proof fn lemma_merge_deletions_clean(from: Seq<String>)
    ensures
        forall|i: int|
            0 <= i < merge_deletions(from).len() ==> clean_keyword(
                #[trigger] op_keyword(merge_deletions(from)[i]),
            ),
    decreases from.len(),
{
    if from.len() > 0 {
        let init = from.drop_last();
        lemma_merge_deletions_clean(init);
        lemma_trim_idempotent(from.last()@);
        let rest = merge_deletions(init);
        let all = merge_deletions(from);
        assert forall|i: int| 0 <= i < all.len() implies clean_keyword(#[trigger] op_keyword(all[i])) by {
            if i < rest.len() {
                assert(all[i] == rest[i]);
            }
        }
    }
}

proof fn lemma_action_ops_clean(a: KeywordActionRequest, index: nat)
    ensures
        forall|i: int|
            0 <= i < action_ops(a, index).len() ==> clean_keyword(
                #[trigger] op_keyword(action_ops(a, index)[i]),
            ),
{
    match a.keyword {
        Some(k) => lemma_trim_idempotent(k@),
        None => {},
    }
    match a.to {
        Some(t) => lemma_trim_idempotent(t@),
        None => {},
    }
    match a.from {
        Some(f) => lemma_merge_deletions_clean(f@),
        None => {},
    }
}

/// Every keyword change names a trimmed, non-blank keyword: a blank keyword
/// in an action changes nothing, and surrounding blanks never reach the
/// store.
pub proof fn law_keyword_changes_name_clean_keywords(actions: Seq<KeywordActionRequest>)
    ensures
        forall|i: int|
            0 <= i < actions_ops(actions).len() ==> clean_keyword(
                #[trigger] op_keyword(actions_ops(actions)[i]),
            ),
    decreases actions.len(),
{
    if actions.len() > 0 {
        let init = actions.drop_last();
        law_keyword_changes_name_clean_keywords(init);
        let last = action_ops(actions.last(), (actions.len() - 1) as nat);
        lemma_action_ops_clean(actions.last(), (actions.len() - 1) as nat);
        let all = actions_ops(actions);
        assert forall|i: int| 0 <= i < all.len() implies clean_keyword(#[trigger] op_keyword(all[i])) by {
            if i < actions_ops(init).len() {
                assert(all[i] == actions_ops(init)[i]);
            } else {
                assert(all[i] == last[i - actions_ops(init).len()]);
            }
        }
    }
}

fn merge_deletion_ops(from: &Vec<String>, out: &mut Vec<KeywordOp>)
    ensures
        op_views(final(out)@) == op_views(old(out)@) + merge_deletions(from@),
{
    let ghost start = op_views(out@);
    let n = from.len();
    for i in 0..n
        invariant
            n == from@.len(),
            op_views(out@) == start + merge_deletions(from@.take(i as int)),
    {
        proof {
            assert(from@.take(i + 1).drop_last() =~= from@.take(i as int));
        }
        let k = trimmed(from[i].as_str());
        let ghost before = out@;
        if k.as_str().unicode_len() > 0 {
            out.push(KeywordOp::Delete { keyword: k });
            proof {
                assert(op_views(out@) =~= op_views(before).push(out@.last()@));
            }
        }
        proof {
            assert(op_views(out@) =~= start + merge_deletions(from@.take(i + 1)));
        }
    }
    proof {
        assert(from@.take(n as int) =~= from@);
    }
}

/// The keyword changes a list of actions makes, in order.
pub fn keyword_ops(actions: &Vec<KeywordActionRequest>) -> (r: Vec<KeywordOp>)
    ensures
        op_views(r@) == actions_ops(actions@),
{
    let mut out: Vec<KeywordOp> = Vec::new();
    let n = actions.len();
    proof {
        assert(op_views(out@) =~= Seq::<KeywordOpView>::empty());
        assert(actions@.take(0) =~= Seq::<KeywordActionRequest>::empty());
    }
    for i in 0..n
        invariant
            n == actions@.len(),
            op_views(out@) == actions_ops(actions@.take(i as int)),
    {
        let a = &actions[i];
        let ghost before = op_views(out@);
        proof {
            assert(actions@.take(i + 1).drop_last() =~= actions@.take(i as int));
            assert(actions@.take(i + 1).last() == *a);
        }
        if str_eq(a.action.as_str(), "add") {
            match &a.keyword {
                Some(k) => {
                    let t = trimmed(k.as_str());
                    if t.as_str().unicode_len() > 0 {
                        out.push(KeywordOp::Upsert { keyword: t, action_index: i });
                        proof {
                            assert(op_views(out@) =~= before + action_ops(*a, i as nat));
                        }
                    } else {
                        proof {
                            assert(op_views(out@) =~= before + action_ops(*a, i as nat));
                        }
                    }
                },
                None => {
                    proof {
                        assert(op_views(out@) =~= before + action_ops(*a, i as nat));
                    }
                },
            }
        } else if str_eq(a.action.as_str(), "remove") {
            match &a.keyword {
                Some(k) => {
                    let t = trimmed(k.as_str());
                    if t.as_str().unicode_len() > 0 {
                        out.push(KeywordOp::Delete { keyword: t });
                    }
                    proof {
                        assert(op_views(out@) =~= before + action_ops(*a, i as nat));
                    }
                },
                None => {
                    proof {
                        assert(op_views(out@) =~= before + action_ops(*a, i as nat));
                    }
                },
            }
        } else if str_eq(a.action.as_str(), "merge") {
            match &a.to {
                Some(to) => {
                    let t = trimmed(to.as_str());
                    if t.as_str().unicode_len() > 0 {
                        match &a.from {
                            Some(f) => merge_deletion_ops(f, &mut out),
                            None => {},
                        }
                        let ghost mid = op_views(out@);
                        out.push(KeywordOp::Upsert { keyword: t, action_index: i });
                        proof {
                            assert(op_views(out@) =~= mid.push(out@.last()@));
                            assert(op_views(out@) =~= before + action_ops(*a, i as nat));
                        }
                    } else {
                        proof {
                            assert(op_views(out@) =~= before + action_ops(*a, i as nat));
                        }
                    }
                },
                None => {
                    proof {
                        assert(op_views(out@) =~= before + action_ops(*a, i as nat));
                    }
                },
            }
        } else {
            proof {
                assert(op_views(out@) =~= before + action_ops(*a, i as nat));
            }
        }
    }
    proof {
        assert(actions@.take(n as int) =~= actions@);
    }
    out
}

/// What a session search asks the database for.
#[derive(Debug, Clone)]
pub struct SessionSearchPlan {
    /// The trimmed query, for exact title and keyword matches.
    pub query: String,
    /// The escaped query followed by `%`.
    pub prefix_pattern: String,
    /// The escaped query between `%` signs.
    pub contains_pattern: String,
    /// The stored kind of the sessions searched.
    pub kind_value: &'static str,
    /// The project searched in, for project sessions.
    pub project_filter: Option<String>,
    /// Most results, between 1 and 100.
    pub limit: i64,
}

/// Plans a session search: a blank query finds nothing (`None`); a project
/// search needs a project; the query is trimmed and escaped for LIKE; the
/// limit is kept between 1 and 100.
pub fn plan_session_search(
    query: &str,
    kind: DispatcherSessionKind,
    project_id: Option<&str>,
    limit: i64,
) -> (r: Result<Option<SessionSearchPlan>, String>)
    ensures
        trim(query@).len() == 0 ==> r == Ok::<Option<SessionSearchPlan>, String>(None),
        trim(query@).len() > 0 && kind == DispatcherSessionKind::Project && project_id is None ==> r
            is Err && r->Err_0@ == "project session search requires project_id"@,
        trim(query@).len() > 0 && !(kind == DispatcherSessionKind::Project && project_id is None)
            ==> (r matches Ok(Some(p)) && {
            &&& p.query@ == trim(query@)
            &&& p.prefix_pattern@ == like_escaped(trim(query@)) + "%"@
            &&& p.contains_pattern@ == "%"@ + like_escaped(trim(query@)) + "%"@
            &&& p.kind_value@ == kind_text(kind)
            &&& (match kind {
                DispatcherSessionKind::Project => p.project_filter is Some
                    && p.project_filter->Some_0@ == project_id->Some_0@,
                DispatcherSessionKind::Chat => p.project_filter is None,
            })
            &&& p.limit == (if limit < 1 {
                1
            } else if limit > 100 {
                100
            } else {
                limit
            })
        }),
{
    let q = trim_str(query);
    if q.unicode_len() == 0 {
        return Ok(None);
    }
    let is_project = match kind {
        DispatcherSessionKind::Project => true,
        DispatcherSessionKind::Chat => false,
    };
    if is_project && project_id.is_none() {
        return Err(String::from_str("project session search requires project_id"));
    }
    let escaped = escape_like(q);
    let mut prefix = escaped.clone();
    prefix.append("%");
    let mut contains = String::from_str("%");
    contains.append(escaped.as_str());
    contains.append("%");
    let project_filter = match kind {
        DispatcherSessionKind::Project => match project_id {
            Some(p) => Some(String::from_str(p)),
            None => None,
        },
        DispatcherSessionKind::Chat => None,
    };
    let limit = if limit < 1 {
        1
    } else if limit > 100 {
        100
    } else {
        limit
    };
    Ok(
        Some(
            SessionSearchPlan {
                query: String::from_str(q),
                prefix_pattern: prefix,
                contains_pattern: contains,
                kind_value: kind.as_sql_value(),
                project_filter,
                limit,
            },
        ),
    )
}

/// The keywords whose lower-case form contains the lower-case query, in order.
pub open spec fn matching_keywords(keywords: Seq<Seq<char>>, query: Seq<char>) -> Seq<Seq<char>> {
    keywords.filter(|k: Seq<char>| contains_text(lowercase(k), lowercase(query)))
}

/// A keyword matches a query exactly when the lower-case query occurs
/// somewhere inside the lower-case keyword, at its start or anywhere after;
/// every match is one of the keywords; and the matches keep the keywords'
/// order, the matches of a longer list extending those of its beginning.
pub proof fn law_matches_are_case_blind_substring_hits(
    keywords: Seq<Seq<char>>,
    more: Seq<Seq<char>>,
    query: Seq<char>,
    i: int,
)
    requires
        0 <= i < keywords.len(),
    ensures
        matching_keywords(keywords, query).contains(keywords[i]) <==> exists|p: int|
            0 <= p && p + lowercase(query).len() <= lowercase(keywords[i]).len()
                && #[trigger] lowercase(keywords[i]).subrange(p, p + lowercase(query).len())
                == lowercase(query),
        forall|k: int|
            0 <= k < matching_keywords(keywords, query).len() ==> keywords.contains(
                #[trigger] matching_keywords(keywords, query)[k],
            ),
        matching_keywords(keywords + more, query) == matching_keywords(keywords, query)
            + matching_keywords(more, query),
{
    broadcast use vstd::seq_lib::group_filter_ensures;
    let pred = |k: Seq<char>| contains_text(lowercase(k), lowercase(query));
    let m = keywords.filter(pred);
    if m.contains(keywords[i]) {
        let j = choose|j: int| 0 <= j < m.len() && m[j] == keywords[i];
        assert(pred(m[j]));
        let p = choose|p: int| occurs_at(lowercase(keywords[i]), lowercase(query), p);
        assert(lowercase(keywords[i]).subrange(p, p + lowercase(query).len()) == lowercase(query));
    }
    if exists|p: int|
        0 <= p && p + lowercase(query).len() <= lowercase(keywords[i]).len()
            && #[trigger] lowercase(keywords[i]).subrange(p, p + lowercase(query).len())
            == lowercase(query) {
        let p = choose|p: int|
            0 <= p && p + lowercase(query).len() <= lowercase(keywords[i]).len()
                && #[trigger] lowercase(keywords[i]).subrange(p, p + lowercase(query).len())
                == lowercase(query);
        assert(occurs_at(lowercase(keywords[i]), lowercase(query), p));
        assert(pred(keywords[i]));
        keywords.lemma_filter_contains(pred, i);
    }
    assert forall|k: int| 0 <= k < m.len() implies keywords.contains(#[trigger] m[k]) by {
        assert(m.contains(m[k]));
        keywords.lemma_filter_contains_rev(pred, m[k]);
    }
    Seq::filter_distributes_over_add(keywords, more, pred);
}

/// The keywords of a result that the query matches, ignoring case.
pub fn matched_keywords(keywords: &Vec<String>, query: &str) -> (r: Vec<String>)
    ensures
        string_views(r@) == matching_keywords(string_views(keywords@), query@),
{
    let q = to_lowercase(query);
    let ghost ks = string_views(keywords@);
    let mut out: Vec<String> = Vec::new();
    let n = keywords.len();
    proof {
        reveal(Seq::filter);
        assert(ks.take(0) =~= Seq::<Seq<char>>::empty());
        assert(string_views(out@) =~= matching_keywords(ks.take(0), query@));
    }
    for i in 0..n
        invariant
            n == keywords@.len(),
            ks == string_views(keywords@),
            q@ == lowercase(query@),
            string_views(out@) == matching_keywords(ks.take(i as int), query@),
    {
        let k = to_lowercase(keywords[i].as_str());
        let ghost before = out@;
        proof {
            reveal(Seq::filter);
            assert(ks.take(i + 1).drop_last() =~= ks.take(i as int));
            assert(ks.take(i + 1).last() == keywords@[i as int]@);
        }
        if str_contains(k.as_str(), q.as_str()) {
            out.push(keywords[i].clone());
            proof {
                assert(string_views(out@) =~= string_views(before).push(keywords@[i as int]@));
            }
        }
    }
    proof {
        assert(ks.take(n as int) =~= ks);
    }
    out
}

/// The parameter list of an `IN (...)` over `n` values: `n` question marks
/// separated by commas.
pub fn in_placeholders(n: usize) -> (r: String)
    ensures
        r@ == crate::text::join_with(Seq::new(n as nat, |k: int| "?"@), ", "@),
{
    let mut out = String::new();
    for i in 0..n
        invariant
            out@ == crate::text::join_with(Seq::new(i as nat, |k: int| "?"@), ", "@),
    {
        proof {
            crate::text::lemma_join_with_push(Seq::new(i as nat, |k: int| "?"@), ", "@, "?"@);
            assert(Seq::new((i + 1) as nat, |k: int| "?"@) =~= Seq::new(i as nat, |k: int| "?"@).push(
                "?"@,
            ));
        }
        if i > 0 {
            out.append(", ");
        }
        out.append("?");
    }
    out
}

} // verus!
