//! Sessions: their records, kinds, agent contexts and modes as stored and as
//! sent over the wire, and how a page of sessions is cut.
use vstd::prelude::*;
use vstd::string::StringExecFns;
use crate::text::{str_eq, trim, trim_str};

verus! {

broadcast use vstd::string::group_string_axioms;

#[derive(Debug, Clone, Copy, PartialEq, Eq, Structural)]
pub enum DispatcherSessionKind {
    Project,
    Chat,
}

#[derive(Debug, Clone)]
pub struct DispatcherSessionRecord {
    pub id: String,
    pub project_id: String,
    pub kind: DispatcherSessionKind,
    pub title: String,
    pub category: String,
    pub created_at: String,
    pub updated_at: String,
}

#[derive(Debug, Clone)]
pub struct ChatSessionRecord {
    pub id: String,
    pub title: String,
    pub category: String,
    pub created_at: String,
    pub updated_at: String,
    pub keywords: Vec<String>,
}

#[derive(Debug, Clone)]
pub struct ProjectSessionRecord {
    pub id: String,
    pub project_id: String,
    pub title: String,
    pub created_at: String,
    pub updated_at: String,
    pub keywords: Vec<String>,
}

/// One page of a session listing.
#[derive(Debug, Clone)]
pub struct SessionPage<T> {
    pub items: Vec<T>,
    pub total: i64,
    pub has_more: bool,
    pub next_cursor: Option<String>,
}

/// Where the next page of chat sessions starts: after this session in
/// (updated_at, id) descending order.
#[derive(Debug, Clone)]
pub struct ChatSessionCursor {
    pub updated_at: String,
    pub id: String,
}

pub open spec fn invalid_message(prefix: Seq<char>, value: Seq<char>) -> Seq<char> {
    prefix + value
}

#[derive(Debug, Clone, Copy, PartialEq, Eq, Structural, Hash)]
pub enum AgentContext {
    Project,
    Chat,
}

impl AgentContext {
    /// Reads a context name (trimmed); blank means the project context.
    pub fn from_wire(value: &str) -> (r: Result<Self, String>)
        ensures
            (trim(value@) == "project"@ || trim(value@).len() == 0) ==> r == Ok::<Self, String>(
                AgentContext::Project,
            ),
            trim(value@) == "chat"@ ==> r == Ok::<Self, String>(AgentContext::Chat),
            (trim(value@) != "project"@ && trim(value@).len() != 0 && trim(value@) != "chat"@)
                ==> r is Err && r->Err_0@ == invalid_message(
                "invalid agent context: "@,
                trim(value@),
            ),
    {
        proof {
            reveal_strlit("project");
            reveal_strlit("chat");
            assert("project"@[0] != "chat"@[0]);
        }
        let t = trim_str(value);
        if str_eq(t, "project") || t.unicode_len() == 0 {
            Ok(AgentContext::Project)
        } else if str_eq(t, "chat") {
            Ok(AgentContext::Chat)
        } else {
            let mut message = String::from_str("invalid agent context: ");
            message.append(t);
            Err(message)
        }
    }

    pub fn as_str(self) -> (r: &'static str)
        ensures
            r@ == (match self {
                AgentContext::Project => "project"@,
                AgentContext::Chat => "chat"@,
            }),
    {
        match self {
            AgentContext::Project => "project",
            AgentContext::Chat => "chat",
        }
    }
}

pub open spec fn kind_text(k: DispatcherSessionKind) -> Seq<char> {
    match k {
        DispatcherSessionKind::Project => "project"@,
        DispatcherSessionKind::Chat => "chat"@,
    }
}

impl DispatcherSessionKind {
    /// Reads a session kind (trimmed); blank means a project session.
    pub fn from_wire(value: &str) -> (r: Result<Self, String>)
        ensures
            (trim(value@) == "project"@ || trim(value@).len() == 0) ==> r == Ok::<Self, String>(
                DispatcherSessionKind::Project,
            ),
            trim(value@) == "chat"@ ==> r == Ok::<Self, String>(DispatcherSessionKind::Chat),
            (trim(value@) != "project"@ && trim(value@).len() != 0 && trim(value@) != "chat"@)
                ==> r is Err && r->Err_0@ == invalid_message(
                "invalid dispatcher session kind: "@,
                trim(value@),
            ),
    {
        proof {
            reveal_strlit("project");
            reveal_strlit("chat");
            assert("project"@[0] != "chat"@[0]);
        }
        let t = trim_str(value);
        if t.unicode_len() == 0 || str_eq(t, "project") {
            Ok(DispatcherSessionKind::Project)
        } else if str_eq(t, "chat") {
            Ok(DispatcherSessionKind::Chat)
        } else {
            let mut message = String::from_str("invalid dispatcher session kind: ");
            message.append(t);
            Err(message)
        }
    }

    pub fn as_sql_value(self) -> (r: &'static str)
        ensures
            r@ == kind_text(self),
    {
        match self {
            DispatcherSessionKind::Project => "project",
            DispatcherSessionKind::Chat => "chat",
        }
    }

    /// Reads a stored kind: only `chat` is a chat session; anything else, a
    /// row from before kinds existed among them, is a project session.
    pub fn from_sql_value(value: String) -> (r: Self)
        ensures
            r == (if value@ == "chat"@ {
                DispatcherSessionKind::Chat
            } else {
                DispatcherSessionKind::Project
            }),
    {
        if str_eq(value.as_str(), "chat") {
            DispatcherSessionKind::Chat
        } else {
            DispatcherSessionKind::Project
        }
    }
}

/// A stored kind reads back as the kind that was stored.
pub proof fn law_session_kind_round_trip(k: DispatcherSessionKind)
    ensures
        (if kind_text(k) == "chat"@ {
            DispatcherSessionKind::Chat
        } else {
            DispatcherSessionKind::Project
        }) == k,
{
    reveal_strlit("project");
    reveal_strlit("chat");
    assert("project"@[0] != "chat"@[0]);
}

#[derive(Debug, Clone, Copy, PartialEq, Eq, Structural)]
pub enum DispatcherMode {
    Default,
    Plan,
}

pub open spec fn mode_text(m: DispatcherMode) -> Seq<char> {
    match m {
        DispatcherMode::Default => "default"@,
        DispatcherMode::Plan => "plan"@,
    }
}

impl DispatcherMode {
    /// Reads a mode (trimmed); blank means the default mode.
    pub fn from_wire(value: &str) -> (r: Result<Self, String>)
        ensures
            (trim(value@) == "default"@ || trim(value@).len() == 0) ==> r == Ok::<Self, String>(
                DispatcherMode::Default,
            ),
            trim(value@) == "plan"@ ==> r == Ok::<Self, String>(DispatcherMode::Plan),
            (trim(value@) != "default"@ && trim(value@).len() != 0 && trim(value@) != "plan"@)
                ==> r is Err && r->Err_0@ == invalid_message(
                "invalid dispatcher mode: "@,
                trim(value@),
            ),
    {
        proof {
            reveal_strlit("default");
            reveal_strlit("plan");
            assert("default"@[0] != "plan"@[0]);
        }
        let t = trim_str(value);
        if t.unicode_len() == 0 || str_eq(t, "default") {
            Ok(DispatcherMode::Default)
        } else if str_eq(t, "plan") {
            Ok(DispatcherMode::Plan)
        } else {
            let mut message = String::from_str("invalid dispatcher mode: ");
            message.append(t);
            Err(message)
        }
    }

    pub fn as_sql_value(self) -> (r: &'static str)
        ensures
            r@ == mode_text(self),
    {
        match self {
            DispatcherMode::Default => "default",
            DispatcherMode::Plan => "plan",
        }
    }

    /// Reads a stored mode: only `plan` is plan mode.
    pub fn from_sql_value(value: String) -> (r: Self)
        ensures
            r == (if value@ == "plan"@ {
                DispatcherMode::Plan
            } else {
                DispatcherMode::Default
            }),
    {
        if str_eq(value.as_str(), "plan") {
            DispatcherMode::Plan
        } else {
            DispatcherMode::Default
        }
    }
}

/// A stored mode reads back as the mode that was stored.
pub proof fn law_mode_round_trip(m: DispatcherMode)
    ensures
        (if mode_text(m) == "plan"@ {
            DispatcherMode::Plan
        } else {
            DispatcherMode::Default
        }) == m,
{
    reveal_strlit("default");
    reveal_strlit("plan");
    assert("default"@[0] != "plan"@[0]);
}

/// Cuts the rows of a page query that asked for one row more than a page: a
/// longer answer means there is more, and the extra row is dropped.
pub fn cut_session_page<T>(rows: Vec<T>, page_size: i64) -> (r: (Vec<T>, bool))
    ensures
        r.1 == (rows@.len() > page_size),
        r.0@ == (if r.1 && rows@.len() > 0 {
            rows@.drop_last()
        } else {
            rows@
        }),
{
    let mut items = rows;
    let has_more = items.len() as i128 > page_size as i128;
    if has_more && items.len() > 0 {
        items.pop();
    }
    (items, has_more)
}

/// The cursor after the last session of a page.
pub fn next_chat_session_cursor(items: &Vec<ChatSessionRecord>) -> (r: Option<ChatSessionCursor>)
    ensures
        items@.len() == 0 ==> r is None,
        items@.len() > 0 ==> r is Some && r->Some_0.updated_at@ == items@.last().updated_at@
            && r->Some_0.id@ == items@.last().id@,
{
    if items.len() == 0 {
        None
    } else {
        let last = &items[items.len() - 1];
        Some(ChatSessionCursor { updated_at: last.updated_at.clone(), id: last.id.clone() })
    }
}

/// The category a new chat session gets when none is given.
pub fn chat_session_category(category: Option<&str>) -> (r: String)
    ensures
        r@ == (match category {
            Some(c) => c@,
            None => "tech"@,
        }),
{
    match category {
        Some(c) => String::from_str(c),
        None => String::from_str("tech"),
    }
}

/// The filter of a chat page query: the category when one is asked for,
/// and the sessions strictly below the cursor in (updated_at, id) order when
/// a cursor is given.
pub open spec fn chat_page_where(has_category: bool, has_cursor: bool) -> Seq<char> {
    if has_category && has_cursor {
        " WHERE category = ?1 AND (updated_at < ?2 OR (updated_at = ?2 AND id < ?3))"@
    } else if has_category {
        " WHERE category = ?1"@
    } else if has_cursor {
        " WHERE updated_at < ?1 OR (updated_at = ?1 AND id < ?2)"@
    } else {
        ""@
    }
}

/// The number of the row-limit parameter, which comes after the filter's.
pub open spec fn chat_page_limit_param(has_category: bool, has_cursor: bool) -> Seq<char> {
    if has_category && has_cursor {
        "4"@
    } else if has_category {
        "2"@
    } else if has_cursor {
        "3"@
    } else {
        "1"@
    }
}

/// The query for one page of chat sessions, newest first by (updated_at,
/// id). Its parameters, in order: the category when one is asked for, the
/// cursor's updated_at and id when a cursor is given, then the row limit.
pub open spec fn chat_page_sql_text(has_category: bool, has_cursor: bool) -> Seq<char> {
    "SELECT id, title, category, created_at, updated_at FROM chat_sessions"@ + chat_page_where(
        has_category,
        has_cursor,
    ) + " ORDER BY updated_at DESC, id DESC LIMIT ?"@ + chat_page_limit_param(has_category, has_cursor)
}

/// The keyset query for a page of chat sessions.
pub fn chat_session_page_sql(has_category: bool, has_cursor: bool) -> (r: String)
    ensures
        r@ == chat_page_sql_text(has_category, has_cursor),
{
    let mut sql = String::from_str("SELECT id, title, category, created_at, updated_at FROM chat_sessions");
    let (filter, limit) = if has_category && has_cursor {
        (" WHERE category = ?1 AND (updated_at < ?2 OR (updated_at = ?2 AND id < ?3))", "4")
    } else if has_category {
        (" WHERE category = ?1", "2")
    } else if has_cursor {
        (" WHERE updated_at < ?1 OR (updated_at = ?1 AND id < ?2)", "3")
    } else {
        ("", "1")
    };
    sql.append(filter);
    sql.append(" ORDER BY updated_at DESC, id DESC LIMIT ?");
    sql.append(limit);
    sql
}

/// Whether `needle` stands in `hay` at some position.
pub open spec fn holds_text_at(hay: Seq<char>, needle: Seq<char>, p: int) -> bool {
    0 <= p && p + needle.len() <= hay.len() && hay.subrange(p, p + needle.len()) == needle
}

/// Every chat page, with or without a category or a cursor, lists chat
/// sessions newest first, by updated_at and then id, both descending, and
/// the query ends with that order and the row limit; with a cursor it keeps
/// only the sessions strictly below the cursor in that order, so the page
/// after a cursor is the next newest sessions; with a category it keeps that
/// category only.
pub proof fn law_chat_pages_newest_first(has_category: bool, has_cursor: bool)
    ensures
        "SELECT id, title, category, created_at, updated_at FROM chat_sessions"@.is_prefix_of(
            chat_page_sql_text(has_category, has_cursor),
        ),
        exists|p: int|
            holds_text_at(
                chat_page_sql_text(has_category, has_cursor),
                " ORDER BY updated_at DESC, id DESC LIMIT ?"@,
                p,
            ) && p + " ORDER BY updated_at DESC, id DESC LIMIT ?"@.len() + 1
                == chat_page_sql_text(has_category, has_cursor).len(),
        has_cursor ==> exists|p: int|
            #[trigger] holds_text_at(
                chat_page_sql_text(has_category, has_cursor),
                "(updated_at = ?"@,
                p,
            ),
        has_cursor && !has_category ==> holds_text_at(
            chat_page_sql_text(has_category, has_cursor),
            " WHERE updated_at < ?1 OR (updated_at = ?1 AND id < ?2)"@,
            "SELECT id, title, category, created_at, updated_at FROM chat_sessions"@.len() as int,
        ),
        has_cursor && has_category ==> holds_text_at(
            chat_page_sql_text(has_category, has_cursor),
            " WHERE category = ?1 AND (updated_at < ?2 OR (updated_at = ?2 AND id < ?3))"@,
            "SELECT id, title, category, created_at, updated_at FROM chat_sessions"@.len() as int,
        ),
        has_category && !has_cursor ==> holds_text_at(
            chat_page_sql_text(has_category, has_cursor),
            " WHERE category = ?1"@,
            "SELECT id, title, category, created_at, updated_at FROM chat_sessions"@.len() as int,
        ),
{
    let a = "SELECT id, title, category, created_at, updated_at FROM chat_sessions"@;
    let w = chat_page_where(has_category, has_cursor);
    let o = " ORDER BY updated_at DESC, id DESC LIMIT ?"@;
    let l = chat_page_limit_param(has_category, has_cursor);
    let t = chat_page_sql_text(has_category, has_cursor);
    assert(t == a + w + o + l);
    reveal_strlit("4");
    reveal_strlit("2");
    reveal_strlit("3");
    reveal_strlit("1");
    assert(l.len() == 1);
    assert(t.subrange(0, a.len() as int) =~= a);
    let p: int = (a.len() + w.len()) as int;
    assert(t.subrange(p, p + o.len()) =~= o);
    assert(holds_text_at(t, o, p));
    assert(t.subrange(a.len() as int, (a.len() + w.len()) as int) =~= w);
    if has_cursor {
        let c = "(updated_at = ?"@;
        reveal_strlit("(updated_at = ?");
        if has_category {
            reveal_strlit(" WHERE category = ?1 AND (updated_at < ?2 OR (updated_at = ?2 AND id < ?3))");
            let q = 45int;
            assert(w.subrange(q, q + c.len()) =~= c);
            assert(t.subrange(a.len() + q, a.len() + q + c.len()) =~= c);
            assert(holds_text_at(t, c, a.len() + q));
        } else {
            reveal_strlit(" WHERE updated_at < ?1 OR (updated_at = ?1 AND id < ?2)");
            let q = 26int;
            assert(w.subrange(q, q + c.len()) =~= c);
            assert(t.subrange(a.len() + q, a.len() + q + c.len()) =~= c);
            assert(holds_text_at(t, c, a.len() + q));
        }
    }
}

} // verus!
