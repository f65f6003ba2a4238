//! Chat categories and their agent configurations: the built-in scenario
//! defaults, how a new category's configuration is chosen, and how a
//! category update is written.
use vstd::prelude::*;
use vstd::string::StringExecFns;
use crate::json_text::{
    json_string_array, json_string_array_text, json_string_list, json_string_text,
    parse_json_string_list,
};
use crate::text::{
    decimal, is_blank_str, str_eq, str_views, string_views, trim, trimmed, u64_to_decimal,
};

verus! {

broadcast use vstd::string::group_string_axioms;

#[derive(Debug, Clone)]
pub struct ChatCategory {
    pub id: String,
    pub name: String,
    pub icon: String,
    pub color: String,
    pub sort_order: i32,
    pub session_count: i64,
    pub created_at: String,
    pub updated_at: String,
}

#[derive(Debug, Clone)]
pub struct ChatCategoryAgentConfig {
    pub category_id: String,
    pub category_name: String,
    pub allowed_tools: Vec<String>,
    pub system_prompt: String,
    pub sub_agent_ids: Vec<String>,
    pub created_at: String,
    pub updated_at: String,
}

/// The built-in agent configuration of a scenario category.
#[derive(Debug, Clone)]
pub struct ScenarioChatCategoryAgentConfig {
    pub tools: Vec<&'static str>,
    pub system_prompt: &'static str,
}

/// The tools a built-in scenario category allows, in order.
pub open spec fn scenario_tools(category_id: Seq<char>) -> Option<Seq<Seq<char>>> {
    if category_id == "general"@ {
        Some(seq!["browser_open_url"@, "browser_read_text"@, "browser_close"@, "list_sub_agents"@, "call_sub_agent"@])
    } else if category_id == "life"@ {
        Some(seq!["browser_open_url"@, "browser_read_text"@, "browser_visual_analyze"@, "browser_close"@])
    } else if category_id == "work"@ {
        Some(seq!["browser_open_url"@, "browser_read_text"@, "browser_click"@, "browser_type"@, "browser_press"@, "browser_wait_for"@, "browser_close"@, "local_zsh"@, "ssh_list_servers"@])
    } else if category_id == "tech"@ {
        Some(seq!["local_zsh"@, "browser_open_url"@, "browser_read_text"@, "browser_click"@, "browser_type"@, "browser_press"@, "browser_wait_for"@, "browser_visual_analyze"@, "browser_close"@, "ssh_list_servers"@, "ssh_exec"@, "list_sub_agents"@, "call_sub_agent"@])
    } else if category_id == "learning"@ {
        Some(seq!["browser_open_url"@, "browser_read_text"@, "browser_visual_analyze"@, "browser_close"@, "local_zsh"@])
    } else {
        None
    }
}

/// Instructions of the built-in `general` category.
pub const SCENARIO_PROMPT_GENERAL: &'static str = "# 综合聊天\n\n你是一个高信息密度的通用助手，适合处理日常问答、快速判断、文本整理和轻量信息检索。\n\n工作方式：\n- 先直接回答用户问题；缺少事实依据时再使用浏览器读取公开信息。\n- 回答保持简洁、清晰、可执行，默认使用简体中文。\n- 不主动执行本地命令；除非用户明确要求或问题需要本地验证。\n- 如任务明显属于专业领域，可先列出可用子智能体，再选择合适的子智能体协助。\n";

/// Instructions of the built-in `life` category.
pub const SCENARIO_PROMPT_LIFE: &'static str = "# 生活助理\n\n你是面向生活场景的助理，适合规划、比较、行程、消费决策、健康常识和日常文本处理。\n\n工作方式：\n- 对会影响时间、金钱或安全的建议，优先检索当前信息并说明依据。\n- 给出选择时用清晰的取舍标准，而不是堆砌选项。\n- 遇到医疗、法律、金融等高风险问题时，只做信息整理和风险提示，不替代专业意见。\n- 输出务实、温和、简洁，默认使用简体中文。\n";

/// Instructions of the built-in `work` category.
pub const SCENARIO_PROMPT_WORK: &'static str = "# 工作助理\n\n你是面向工作流的执行型助理，适合处理资料整理、流程推进、网页操作、轻量自动化和远程环境巡检。\n\n工作方式：\n- 先明确目标、约束和交付物，再选择工具。\n- 使用浏览器工具时遵循 ref 流程：先 browser_read_text，再基于 ref 点击、输入或等待。\n- 本地命令仅在 .jkcodingagent/local_env/zsh 中执行，命令要短小、可审计，避免高风险操作。\n- SSH 默认只做服务器列表和只读巡检；执行变更前必须说明影响并等待用户确认。\n- 默认使用简体中文，输出结论优先。\n";

/// Instructions of the built-in `tech` category.
pub const SCENARIO_PROMPT_TECH: &'static str = "# 技术助手\n\n你是面向工程问题的技术助手，适合排查错误、解释代码、验证命令、阅读文档和推进技术方案。\n\n工作方式：\n- 事实优先，必要时用浏览器查看官方文档或公开资料；不要编造 API、参数或版本信息。\n- 本地验证优先使用 local_zsh，并保持命令小步、可复现、可审计。\n- 远程命令必须先确认目标服务器；涉及写入、删除、部署、重启等操作前必须说明影响并等待用户确认。\n- 对复杂任务先拆解，再给出可执行步骤；回答默认简体中文，保持工程化、直接、少废话。\n";

/// Instructions of the built-in `learning` category.
pub const SCENARIO_PROMPT_LEARNING: &'static str = "# 学习教练\n\n你是学习型助手，适合讲解概念、制定学习路径、做题辅导、资料检索和小实验验证。\n\n工作方式：\n- 先判断用户当前水平，再用递进方式解释：直觉、例子、关键细节、练习。\n- 复杂概念要拆成短段落，并给出可验证的小任务。\n- 需要最新资料时优先用浏览器读取可信来源；需要演示时可用 local_zsh 做小实验。\n- 不替用户跳过思考：给答案，也给判断依据和可迁移的方法。\n";

/// The instructions a built-in scenario category starts with.
pub open spec fn scenario_prompt(category_id: Seq<char>) -> Option<Seq<char>> {
    if category_id == "general"@ {
        Some(SCENARIO_PROMPT_GENERAL@)
    } else if category_id == "life"@ {
        Some(SCENARIO_PROMPT_LIFE@)
    } else if category_id == "work"@ {
        Some(SCENARIO_PROMPT_WORK@)
    } else if category_id == "tech"@ {
        Some(SCENARIO_PROMPT_TECH@)
    } else if category_id == "learning"@ {
        Some(SCENARIO_PROMPT_LEARNING@)
    } else {
        None
    }
}

/// The built-in configuration of a scenario category; `None` for any other
/// category.
pub fn scenario_chat_category_agent_config(category_id: &str) -> (r: Option<
    ScenarioChatCategoryAgentConfig,
>)
    ensures
        r is Some <==> scenario_tools(category_id@) is Some,
        r matches Some(cfg) ==> Some(str_views(cfg.tools@)) == scenario_tools(category_id@) && Some(
            cfg.system_prompt@,
        ) == scenario_prompt(category_id@),
{
    proof {
        reveal_strlit("general");
        reveal_strlit("life");
        reveal_strlit("work");
        reveal_strlit("tech");
        reveal_strlit("learning");
        assert("general"@.len() != "life"@.len());
        assert("general"@.len() != "work"@.len());
        assert("general"@.len() != "tech"@.len());
        assert("general"@.len() != "learning"@.len());
        assert("life"@[0] != "work"@[0]);
        assert("life"@[0] != "tech"@[0]);
        assert("life"@.len() != "learning"@.len());
        assert("work"@[0] != "tech"@[0]);
        assert("work"@.len() != "learning"@.len());
        assert("tech"@.len() != "learning"@.len());
    }
    if str_eq(category_id, "general") {
        let tools = vec!["browser_open_url", "browser_read_text", "browser_close", "list_sub_agents", "call_sub_agent"];
        assert(str_views(tools@) =~= seq!["browser_open_url"@, "browser_read_text"@, "browser_close"@, "list_sub_agents"@, "call_sub_agent"@]);
        Some(ScenarioChatCategoryAgentConfig { tools, system_prompt: SCENARIO_PROMPT_GENERAL })
    } else if str_eq(category_id, "life") {
        let tools = vec!["browser_open_url", "browser_read_text", "browser_visual_analyze", "browser_close"];
        assert(str_views(tools@) =~= seq!["browser_open_url"@, "browser_read_text"@, "browser_visual_analyze"@, "browser_close"@]);
        Some(ScenarioChatCategoryAgentConfig { tools, system_prompt: SCENARIO_PROMPT_LIFE })
    } else if str_eq(category_id, "work") {
        let tools = vec!["browser_open_url", "browser_read_text", "browser_click", "browser_type", "browser_press", "browser_wait_for", "browser_close", "local_zsh", "ssh_list_servers"];
        assert(str_views(tools@) =~= seq!["browser_open_url"@, "browser_read_text"@, "browser_click"@, "browser_type"@, "browser_press"@, "browser_wait_for"@, "browser_close"@, "local_zsh"@, "ssh_list_servers"@]);
        Some(ScenarioChatCategoryAgentConfig { tools, system_prompt: SCENARIO_PROMPT_WORK })
    } else if str_eq(category_id, "tech") {
        let tools = vec!["local_zsh", "browser_open_url", "browser_read_text", "browser_click", "browser_type", "browser_press", "browser_wait_for", "browser_visual_analyze", "browser_close", "ssh_list_servers", "ssh_exec", "list_sub_agents", "call_sub_agent"];
        assert(str_views(tools@) =~= seq!["local_zsh"@, "browser_open_url"@, "browser_read_text"@, "browser_click"@, "browser_type"@, "browser_press"@, "browser_wait_for"@, "browser_visual_analyze"@, "browser_close"@, "ssh_list_servers"@, "ssh_exec"@, "list_sub_agents"@, "call_sub_agent"@]);
        Some(ScenarioChatCategoryAgentConfig { tools, system_prompt: SCENARIO_PROMPT_TECH })
    } else if str_eq(category_id, "learning") {
        let tools = vec!["browser_open_url", "browser_read_text", "browser_visual_analyze", "browser_close", "local_zsh"];
        assert(str_views(tools@) =~= seq!["browser_open_url"@, "browser_read_text"@, "browser_visual_analyze"@, "browser_close"@, "local_zsh"@]);
        Some(ScenarioChatCategoryAgentConfig { tools, system_prompt: SCENARIO_PROMPT_LEARNING })
    } else {
        None
    }
}

/// The agent configuration a category starts with, as (tools JSON,
/// instructions): a scenario category's built-in one; any other category
/// gets the chat agent's stored tools (`[]` when none are stored) and the
/// plain chat instructions.
pub fn default_chat_category_agent_config(
    category_id: &str,
    stored_chat_tools_json: Option<String>,
    plain_chat_prompt: &str,
) -> (r: (String, String))
    ensures
        match scenario_tools(category_id@) {
            Some(tools) => r.0@ == json_string_array_text(tools) && Some(r.1@) == scenario_prompt(
                category_id@,
            ),
            None => r.0@ == (match stored_chat_tools_json {
                Some(t) => t@,
                None => "[]"@,
            }) && r.1@ == plain_chat_prompt@,
        },
{
    match scenario_chat_category_agent_config(category_id) {
        Some(cfg) => (json_string_array(&cfg.tools), String::from_str(cfg.system_prompt)),
        None => {
            let tools = match stored_chat_tools_json {
                Some(t) => t,
                None => String::from_str("[]"),
            };
            (tools, String::from_str(plain_chat_prompt))
        },
    }
}

/// The agent configuration of a new category, as (tools JSON, instructions):
/// the given tools, or else the default ones; the given instructions trimmed
/// when not blank, or else the default ones.
pub fn new_category_agent_config(
    default_config: (String, String),
    allowed_tools: Option<Vec<String>>,
    system_prompt: Option<&str>,
) -> (r: (String, String))
    ensures
        r.0@ == (match allowed_tools {
            Some(tools) => json_string_array_text(string_views(tools@)),
            None => default_config.0@,
        }),
        r.1@ == (match system_prompt {
            Some(p) => if trim(p@).len() > 0 {
                trim(p@)
            } else {
                default_config.1@
            },
            None => default_config.1@,
        }),
{
    let (default_tools, default_prompt) = default_config;
    let tools = match allowed_tools {
        Some(t) => crate::json_text::json_string_array_of_strings(&t),
        None => default_tools,
    };
    let prompt = match system_prompt {
        Some(p) => {
            let t = trimmed(p);
            if t.as_str().unicode_len() > 0 {
                t
            } else {
                default_prompt
            }
        },
        None => default_prompt,
    };
    (tools, prompt)
}

/// The sort position of a new category: after the current last one (`-1`
/// when there is none).
pub fn next_category_sort_order(max_order: i32) -> (r: i32)
    requires
        max_order < i32::MAX,
    ensures
        r == max_order + 1,
{
    max_order + 1
}

/// Whether every category has its agent configuration row.
pub fn category_configs_complete(config_count: usize, category_count: i64) -> (r: bool)
    ensures
        r == (category_count >= 0 && config_count == category_count),
{
    category_count >= 0 && config_count as i128 == category_count as i128
}

pub open spec fn numbered(k: nat) -> Seq<char> {
    "?"@ + decimal(k)
}

/// The statement of a category update: one assignment per given field, then
/// the update time, with numbered parameters in that order, the category id
/// last. `None` when no field is given.
pub open spec fn category_update_sql_text(has_name: bool, has_icon: bool, has_color: bool) -> Option<
    Seq<char>,
> {
    if !has_name && !has_icon && !has_color {
        None
    } else {
        let n0: nat = 0;
        let n1: nat = if has_name {
            n0 + 1
        } else {
            n0
        };
        let n2: nat = if has_icon {
            n1 + 1
        } else {
            n1
        };
        let n3: nat = if has_color {
            n2 + 1
        } else {
            n2
        };
        let parts = (if has_name {
            seq!["name = "@ + numbered(n1)]
        } else {
            Seq::empty()
        }) + (if has_icon {
            seq!["icon = "@ + numbered(n2)]
        } else {
            Seq::empty()
        }) + (if has_color {
            seq!["color = "@ + numbered(n3)]
        } else {
            Seq::empty()
        }) + seq!["updated_at = "@ + numbered(n3 + 1)];
        Some(
            "UPDATE chat_categories SET "@ + crate::text::join_with(parts, ", "@) + " WHERE id = "@
                + numbered(n3 + 2),
        )
    }
}

fn push_assignment(parts: &mut Vec<String>, column: &str, n: u64)
    ensures
        string_views(final(parts)@) == string_views(old(parts)@).push(column@ + numbered(n as nat)),
{
    let mut part = String::from_str(column);
    part.append("?");
    let digits = u64_to_decimal(n);
    part.append(digits.as_str());
    assert(part@ =~= column@ + numbered(n as nat));
    let ghost before = parts@;
    parts.push(part);
    assert(string_views(parts@) =~= string_views(before).push(column@ + numbered(n as nat)));
}

pub fn chat_category_update_sql(has_name: bool, has_icon: bool, has_color: bool) -> (r: Option<String>)
    ensures
        match r {
            Some(s) => category_update_sql_text(has_name, has_icon, has_color) == Some(s@),
            None => category_update_sql_text(has_name, has_icon, has_color) is None,
        },
{
    if !has_name && !has_icon && !has_color {
        return None;
    }
    let mut parts: Vec<String> = Vec::new();
    let mut n: u64 = 0;
    if has_name {
        n = n + 1;
        push_assignment(&mut parts, "name = ", n);
    }
    if has_icon {
        n = n + 1;
        push_assignment(&mut parts, "icon = ", n);
    }
    if has_color {
        n = n + 1;
        push_assignment(&mut parts, "color = ", n);
    }
    push_assignment(&mut parts, "updated_at = ", n + 1);
    let mut sql = String::from_str("UPDATE chat_categories SET ");
    let joined = crate::text::join_strings(&parts, ", ");
    sql.append(joined.as_str());
    sql.append(" WHERE id = ");
    sql.append("?");
    let last = u64_to_decimal(n + 2);
    sql.append(last.as_str());
    proof {
        assert(string_views(parts@) =~= (if has_name {
            seq!["name = "@ + numbered(1)]
        } else {
            Seq::<Seq<char>>::empty()
        }) + (if has_icon {
            seq!["icon = "@ + numbered(if has_name { 2nat } else { 1nat })]
        } else {
            Seq::<Seq<char>>::empty()
        }) + (if has_color {
            seq!["color = "@ + numbered(n as nat)]
        } else {
            Seq::<Seq<char>>::empty()
        }) + seq!["updated_at = "@ + numbered((n + 1) as nat)]);
        assert(sql@ =~= "UPDATE chat_categories SET "@ + crate::text::join_with(
            string_views(parts@),
            ", "@,
        ) + " WHERE id = "@ + numbered((n + 2) as nat));
    }
    Some(sql)
}

/// A built-in category.
#[derive(Debug, Clone)]
pub struct ChatCategorySeed {
    pub id: &'static str,
    pub name: &'static str,
    pub icon: &'static str,
    pub color: &'static str,
    pub sort_order: i32,
}

/// The categories every new database starts with, in order.
pub fn default_chat_categories() -> (r: Vec<ChatCategorySeed>)
    ensures
        r@.len() == 5,
        forall|k: int| 0 <= k < 5 ==> (#[trigger] r@[k]).sort_order == k,
        r@[0].id@ == "general"@,
        r@[1].id@ == "life"@,
        r@[2].id@ == "work"@,
        r@[3].id@ == "tech"@,
        r@[4].id@ == "learning"@,
{
    vec![
        ChatCategorySeed {
            id: "general",
            name: "综合",
            icon: "MessageSquare",
            color: "",
            sort_order: 0,
        },
        ChatCategorySeed { id: "life", name: "生活", icon: "Heart", color: "#F43F5E", sort_order: 1 },
        ChatCategorySeed {
            id: "work",
            name: "工作",
            icon: "Briefcase",
            color: "#3B82F6",
            sort_order: 2,
        },
        ChatCategorySeed { id: "tech", name: "技术", icon: "Code2", color: "#8B5CF6", sort_order: 3 },
        ChatCategorySeed {
            id: "learning",
            name: "学习",
            icon: "GraduationCap",
            color: "#22C55E",
            sort_order: 4,
        },
    ]
}

/// Every built-in category is a scenario category with built-in tools and
/// instructions.
pub proof fn law_seeded_categories_have_scenarios()
    ensures
        scenario_tools("general"@) is Some,
        scenario_tools("life"@) is Some,
        scenario_tools("work"@) is Some,
        scenario_tools("tech"@) is Some,
        scenario_tools("learning"@) is Some,
{
}


/// A stored list of a category's agent configuration: the strings of the
/// stored JSON array, or none when the text is damaged.
pub open spec fn stored_list(raw: Seq<char>) -> Seq<Seq<char>> {
    match json_string_list(raw) {
        Some(v) => v,
        None => Seq::empty(),
    }
}

/// Reads a stored list; damaged text reads as an empty list rather than
/// failing the whole listing.
pub fn parse_category_json_list(raw: &str) -> (r: Vec<String>)
    ensures
        string_views(r@) == stored_list(raw@),
{
    match parse_json_string_list(raw) {
        Some(v) => v,
        None => {
            let r: Vec<String> = Vec::new();
            proof {
                assert(string_views(r@) =~= Seq::<Seq<char>>::empty());
            }
            r
        },
    }
}

/// Which fields of a damaged agent configuration row are reset: the tools to
/// the category's defaults, the sub-agents to an empty list.
#[derive(Debug, Clone, Copy, PartialEq, Eq)]
pub struct AgentConfigRepair {
    pub reset_allowed_tools: bool,
    pub reset_sub_agent_ids: bool,
}

/// The repair a stored configuration row needs: `None` when both of its
/// lists read; otherwise exactly the fields whose JSON is damaged.
pub fn agent_config_repair(allowed_tools_json: &str, sub_agent_ids_json: &str) -> (r: Option<
    AgentConfigRepair,
>)
    ensures
        ({
            let tools_bad = json_string_list(allowed_tools_json@) is None;
            let subs_bad = json_string_list(sub_agent_ids_json@) is None;
            if tools_bad || subs_bad {
                r == Some(
                    AgentConfigRepair { reset_allowed_tools: tools_bad, reset_sub_agent_ids: subs_bad },
                )
            } else {
                r is None
            }
        }),
{
    let tools_bad = parse_json_string_list(allowed_tools_json).is_none();
    let subs_bad = parse_json_string_list(sub_agent_ids_json).is_none();
    if tools_bad || subs_bad {
        Some(AgentConfigRepair { reset_allowed_tools: tools_bad, reset_sub_agent_ids: subs_bad })
    } else {
        None
    }
}

/// A category's agent configuration as stored, joined with its category.
#[derive(Debug, Clone)]
pub struct ChatCategoryAgentConfigRow {
    pub category_id: String,
    pub category_name: String,
    pub allowed_tools_json: String,
    pub sub_agent_ids_json: String,
    pub system_prompt: String,
    pub created_at: String,
    pub updated_at: String,
}

/// Reads a configuration row: its lists as [`parse_category_json_list`]
/// reads them, everything else as stored.
pub fn agent_config_from_row(row: ChatCategoryAgentConfigRow) -> (r: ChatCategoryAgentConfig)
    ensures
        r.category_id@ == row.category_id@,
        r.category_name@ == row.category_name@,
        string_views(r.allowed_tools@) == stored_list(row.allowed_tools_json@),
        string_views(r.sub_agent_ids@) == stored_list(row.sub_agent_ids_json@),
        r.system_prompt@ == row.system_prompt@,
        r.created_at@ == row.created_at@,
        r.updated_at@ == row.updated_at@,
{
    let allowed_tools = parse_category_json_list(row.allowed_tools_json.as_str());
    let sub_agent_ids = parse_category_json_list(row.sub_agent_ids_json.as_str());
    ChatCategoryAgentConfig {
        category_id: row.category_id,
        category_name: row.category_name,
        allowed_tools,
        system_prompt: row.system_prompt,
        sub_agent_ids,
        created_at: row.created_at,
        updated_at: row.updated_at,
    }
}

} // verus!
