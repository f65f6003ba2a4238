//! The context debug log: what one entry says, and when the log file is
//! rolled over. Writing the file is the caller's.
use vstd::prelude::*;
use vstd::string::StringExecFns;

verus! {

broadcast use vstd::string::group_string_axioms;

/// The directory, under the project root, that holds the log.
pub const DEBUG_LOG_DIR: &'static str = "logs";

/// The log file.
pub const DEBUG_LOG_FILE: &'static str = "agent.debug";

/// The one earlier log kept after a roll-over.
pub const DEBUG_LOG_ARCHIVE_FILE: &'static str = "agent.debug.old";

/// Past this size the log is rolled over to the archive file.
pub const MAX_DEBUG_LOG_BYTES: u64 = 10485760;

/// Whether a log file of `len` bytes is to be rolled over before writing.
pub fn needs_rotation(len: u64) -> (r: bool)
    ensures
        r == (len > MAX_DEBUG_LOG_BYTES),
{
    len > MAX_DEBUG_LOG_BYTES
}

/// A titled block of an entry.
#[derive(Debug, Clone)]
pub struct DebugSection {
    pub title: String,
    pub body: String,
}

impl DebugSection {
    pub fn new(title: String, body: String) -> (r: Self)
        ensures
            r.title@ == title@,
            r.body@ == body@,
    {
        DebugSection { title, body }
    }
}

/// Whether context debug logging is on, and for which project.
#[derive(Debug, Clone)]
pub struct ContextDebugLogger {
    enabled: bool,
    project_root: String,
}

impl ContextDebugLogger {
    pub closed spec fn is_enabled(&self) -> bool {
        self.enabled
    }

    pub closed spec fn root(&self) -> Seq<char> {
        self.project_root@
    }

    pub fn new(enabled: bool, project_root: String) -> (r: Self)
        ensures
            r.is_enabled() == enabled,
            r.root() == project_root@,
    {
        ContextDebugLogger { enabled, project_root }
    }

    /// Whether entries are written at all.
    pub fn enabled(&self) -> (r: bool)
        ensures
            r == self.is_enabled(),
    {
        self.enabled
    }

    /// The project whose log the entries go to.
    pub fn project_root(&self) -> (r: &str)
        ensures
            r@ == self.root(),
    {
        self.project_root.as_str()
    }
}

/// The rule that opens an entry: ninety-six `=`.
pub open spec fn entry_rule() -> Seq<char> {
    Seq::new(96, |i: int| '=')
}

/// The metadata lines: `- key：value` each.
pub open spec fn metadata_lines(m: Seq<(String, String)>) -> Seq<char>
    decreases m.len(),
{
    if m.len() == 0 {
        Seq::empty()
    } else {
        metadata_lines(m.drop_last()) + "- "@ + m.last().0@ + "："@ + m.last().1@ + "\n"@
    }
}

/// A section: a blank line, the title in brackets, then the body, ended by
/// a line break and followed by an empty line unless the body ends with a
/// line break of its own.
pub open spec fn section_text(s: DebugSection) -> Seq<char> {
    "\n【"@ + s.title@ + "】\n"@ + s.body@ + "\n"@ + (if s.body@.len() > 0 && s.body@.last() == '\n' {
        Seq::empty()
    } else {
        "\n"@
    })
}

pub open spec fn sections_text(s: Seq<DebugSection>) -> Seq<char>
    decreases s.len(),
{
    if s.len() == 0 {
        Seq::empty()
    } else {
        sections_text(s.drop_last()) + section_text(s.last())
    }
}

/// An entry: the rule, the time and the event, the metadata under a
/// heading when there is any, and the sections.
pub open spec fn entry_text(
    timestamp: Seq<char>,
    event: Seq<char>,
    metadata: Seq<(String, String)>,
    sections: Seq<DebugSection>,
) -> Seq<char> {
    "\n"@ + entry_rule() + "\n时间："@ + timestamp + "\n事件："@ + event + "\n"@ + (if metadata.len() > 0 {
        "元数据：\n"@ + metadata_lines(metadata)
    } else {
        Seq::empty()
    }) + sections_text(sections)
}

/// The text of one log entry, stamped with `timestamp`.
pub fn render_log_entry(
    timestamp: &str,
    event: &str,
    metadata: &Vec<(String, String)>,
    sections: &Vec<DebugSection>,
) -> (r: String)
    ensures
        r@ == entry_text(timestamp@, event@, metadata@, sections@),
{
    let mut out = String::from_str("\n");
    proof {
        assert("\n"@ =~= "\n"@ + Seq::new(0, |k: int| '='));
    }
    for i in 0..96usize
        invariant
            out@ == "\n"@ + Seq::new(i as nat, |k: int| '='),
    {
        let ghost before = out@;
        out.append("=");
        proof {
            reveal_strlit("=");
            assert(Seq::new((i + 1) as nat, |k: int| '=') =~= Seq::new(i as nat, |k: int| '=').push('='));
            assert(out@ =~= "\n"@ + Seq::new((i + 1) as nat, |k: int| '='));
        }
    }
    out.append("\n时间：");
    out.append(timestamp);
    out.append("\n事件：");
    out.append(event);
    out.append("\n");
    let ghost head = out@;
    proof {
        assert(head =~= "\n"@ + entry_rule() + "\n时间："@ + timestamp@ + "\n事件："@ + event@ + "\n"@);
    }
    let n = metadata.len();
    if n > 0 {
        out.append("元数据：\n");
        let ghost start = out@;
        for i in 0..n
            invariant
                n == metadata@.len(),
                out@ == start + metadata_lines(metadata@.take(i as int)),
        {
            proof {
                assert(metadata@.take(i + 1).drop_last() =~= metadata@.take(i as int));
            }
            out.append("- ");
            out.append(metadata[i].0.as_str());
            out.append("：");
            out.append(metadata[i].1.as_str());
            out.append("\n");
            proof {
                assert(out@ =~= start + metadata_lines(metadata@.take(i + 1)));
            }
        }
        proof {
            assert(metadata@.take(n as int) =~= metadata@);
        }
    }
    let ghost mid = out@;
    proof {
        assert(mid =~= head + (if metadata@.len() > 0 {
            "元数据：\n"@ + metadata_lines(metadata@)
        } else {
            Seq::empty()
        }));
    }
    let m = sections.len();
    proof {
        assert(sections@.take(0) =~= Seq::<DebugSection>::empty());
        assert(out@ =~= mid + sections_text(sections@.take(0)));
    }
    for j in 0..m
        invariant
            m == sections@.len(),
            out@ == mid + sections_text(sections@.take(j as int)),
    {
        proof {
            assert(sections@.take(j + 1).drop_last() =~= sections@.take(j as int));
        }
        let s = &sections[j];
        out.append("\n【");
        out.append(s.title.as_str());
        out.append("】\n");
        out.append(s.body.as_str());
        out.append("\n");
        let len = s.body.as_str().unicode_len();
        let ends_with_break = len > 0 && s.body.as_str().get_char(len - 1) == '\n';
        if !ends_with_break {
            out.append("\n");
        }
        proof {
            assert(out@ =~= mid + sections_text(sections@.take(j + 1)));
        }
    }
    proof {
        assert(sections@.take(m as int) =~= sections@);
    }
    out
}

} // verus!
