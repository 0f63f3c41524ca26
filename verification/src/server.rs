//! The tool registry of the MCP server: tools keyed by their names, each name
//! at most once.
use vstd::prelude::*;
use crate::text::owned;
use crate::tools::{
    ManageAccountsTool, ManageCalendarTool, ManageDocsTool, ManageDriveTool, ManageEmailTool,
    ManageFormsTool, ManageMeetTool, ManageNotebookLmTool, ManagePhotosTool, ManageSheetsTool,
    ManageSlidesTool, ManageTasksTool, ACCOUNTS_DESCRIPTION, CALENDAR_DESCRIPTION,
    DOCS_DESCRIPTION, DRIVE_DESCRIPTION, EMAIL_DESCRIPTION, FORMS_DESCRIPTION, MEET_DESCRIPTION,
    NOTEBOOKLM_DESCRIPTION, PHOTOS_DESCRIPTION, SHEETS_DESCRIPTION, SLIDES_DESCRIPTION,
    TASKS_DESCRIPTION,
};

verus! {

/// A tool that the server can offer.
pub enum Tool {
    Accounts(ManageAccountsTool),
    Email(ManageEmailTool),
    Calendar(ManageCalendarTool),
    Drive(ManageDriveTool),
    Docs(ManageDocsTool),
    Sheets(ManageSheetsTool),
    Slides(ManageSlidesTool),
    Forms(ManageFormsTool),
    Tasks(ManageTasksTool),
    Meet(ManageMeetTool),
    Photos(ManagePhotosTool),
    NotebookLm(ManageNotebookLmTool),
}

impl Tool {
    /// The name the tool is offered under.
    pub open spec fn tool_name(self) -> Seq<char> {
        match self {
            Tool::Accounts(_) => "manage_accounts"@,
            Tool::Email(_) => "manage_email"@,
            Tool::Calendar(_) => "manage_calendar"@,
            Tool::Drive(_) => "manage_drive"@,
            Tool::Docs(_) => "manage_docs"@,
            Tool::Sheets(_) => "manage_sheets"@,
            Tool::Slides(_) => "manage_slides"@,
            Tool::Forms(_) => "manage_forms"@,
            Tool::Tasks(_) => "manage_tasks"@,
            Tool::Meet(_) => "manage_meet"@,
            Tool::Photos(_) => "manage_photos"@,
            Tool::NotebookLm(_) => "manage_notebooklm"@,
        }
    }

    /// The description offered with the tool.
    pub open spec fn tool_description(self) -> Seq<char> {
        match self {
            Tool::Accounts(_) => ACCOUNTS_DESCRIPTION@,
            Tool::Email(_) => EMAIL_DESCRIPTION@,
            Tool::Calendar(_) => CALENDAR_DESCRIPTION@,
            Tool::Drive(_) => DRIVE_DESCRIPTION@,
            Tool::Docs(_) => DOCS_DESCRIPTION@,
            Tool::Sheets(_) => SHEETS_DESCRIPTION@,
            Tool::Slides(_) => SLIDES_DESCRIPTION@,
            Tool::Forms(_) => FORMS_DESCRIPTION@,
            Tool::Tasks(_) => TASKS_DESCRIPTION@,
            Tool::Meet(_) => MEET_DESCRIPTION@,
            Tool::Photos(_) => PHOTOS_DESCRIPTION@,
            Tool::NotebookLm(_) => NOTEBOOKLM_DESCRIPTION@,
        }
    }

    pub fn name(&self) -> (r: &'static str)
        ensures
            r@ == self.tool_name(),
    {
        match self {
            Tool::Accounts(t) => t.name(),
            Tool::Email(t) => t.name(),
            Tool::Calendar(t) => t.name(),
            Tool::Drive(t) => t.name(),
            Tool::Docs(t) => t.name(),
            Tool::Sheets(t) => t.name(),
            Tool::Slides(t) => t.name(),
            Tool::Forms(t) => t.name(),
            Tool::Tasks(t) => t.name(),
            Tool::Meet(t) => t.name(),
            Tool::Photos(t) => t.name(),
            Tool::NotebookLm(t) => t.name(),
        }
    }

    pub fn description(&self) -> (r: &'static str)
        ensures
            r@ == self.tool_description(),
    {
        match self {
            Tool::Accounts(t) => t.description(),
            Tool::Email(t) => t.description(),
            Tool::Calendar(t) => t.description(),
            Tool::Drive(t) => t.description(),
            Tool::Docs(t) => t.description(),
            Tool::Sheets(t) => t.description(),
            Tool::Slides(t) => t.description(),
            Tool::Forms(t) => t.description(),
            Tool::Tasks(t) => t.description(),
            Tool::Meet(t) => t.description(),
            Tool::Photos(t) => t.description(),
            Tool::NotebookLm(t) => t.description(),
        }
    }
}

/// The position of the tool named `n`, searching from the end.
pub open spec fn index_named(ts: Seq<Tool>, n: Seq<char>) -> Option<int>
    decreases ts.len(),
{
    if ts.len() == 0 {
        None
    } else if ts.last().tool_name() == n {
        Some(ts.len() - 1)
    } else {
        index_named(ts.drop_last(), n)
    }
}

/// The tool registered under `n`.
pub open spec fn named(ts: Seq<Tool>, n: Seq<char>) -> Option<Tool> {
    match index_named(ts, n) {
        Some(i) => Some(ts[i]),
        None => None,
    }
}

/// No two tools share a name.
pub open spec fn distinct_names(ts: Seq<Tool>) -> bool {
    forall|i: int, j: int| 0 <= i < ts.len() && 0 <= j < ts.len() && i != j
        ==> #[trigger] ts[i].tool_name() != #[trigger] ts[j].tool_name()
}

/// The registry after registering `t`: it replaces the tool of the same
/// name, or comes last.
pub open spec fn registered_with(ts: Seq<Tool>, t: Tool) -> Seq<Tool> {
    match index_named(ts, t.tool_name()) {
        Some(i) => ts.update(i, t),
        None => ts.push(t),
    }
}

/// `index_named` finds a tool of that name, and finds none only when
/// there is none.
pub proof fn lemma_index_named(ts: Seq<Tool>, n: Seq<char>)
    ensures
        match index_named(ts, n) {
            Some(i) => 0 <= i < ts.len() && ts[i].tool_name() == n,
            None => forall|k: int| 0 <= k < ts.len() ==> #[trigger] ts[k].tool_name() != n,
        },
    decreases ts.len(),
{
    if ts.len() > 0 && ts.last().tool_name() != n {
        lemma_index_named(ts.drop_last(), n);
        assert forall|k: int| 0 <= k < ts.len() - 1 implies #[trigger] ts[k] == ts.drop_last()[k] by {}
    }
}

/// With distinct names, the tool at `i` is the one found under its name.
pub proof fn lemma_index_named_is(ts: Seq<Tool>, i: int)
    requires
        distinct_names(ts),
        0 <= i < ts.len(),
    ensures
        index_named(ts, ts[i].tool_name()) == Some(i),
{
    lemma_index_named(ts, ts[i].tool_name());
    match index_named(ts, ts[i].tool_name()) {
        Some(j) => {
            if j != i {
                assert(ts[i].tool_name() != ts[j].tool_name());
            }
        },
        None => {
            assert(ts[i].tool_name() != ts[i].tool_name());
        },
    }
}

/// Registering a tool makes it the one found under its name.
pub proof fn lemma_register_then_lookup(ts: Seq<Tool>, t: Tool)
    requires
        distinct_names(ts),
    ensures
        named(registered_with(ts, t), t.tool_name()) == Some(t),
        distinct_names(registered_with(ts, t)),
{
    lemma_index_named(ts, t.tool_name());
    let r = registered_with(ts, t);
    match index_named(ts, t.tool_name()) {
        Some(i) => {
            assert forall|a: int, b: int| 0 <= a < r.len() && 0 <= b < r.len() && a != b
                implies #[trigger] r[a].tool_name() != #[trigger] r[b].tool_name() by {
                if a != i && b != i {
                    assert(ts[a].tool_name() != ts[b].tool_name());
                } else if a == i {
                    assert(ts[i].tool_name() != ts[b].tool_name());
                } else {
                    assert(ts[a].tool_name() != ts[i].tool_name());
                }
            }
            lemma_index_named_is(r, i);
        },
        None => {
            assert forall|a: int, b: int| 0 <= a < r.len() && 0 <= b < r.len() && a != b
                implies #[trigger] r[a].tool_name() != #[trigger] r[b].tool_name() by {
                if a < ts.len() && b < ts.len() {
                    assert(ts[a].tool_name() != ts[b].tool_name());
                } else if a == ts.len() {
                    assert(ts[b].tool_name() != t.tool_name());
                } else {
                    assert(ts[a].tool_name() != t.tool_name());
                }
            }
            lemma_index_named_is(r, ts.len() as int);
        },
    }
}

/// Registering a tool leaves the tools of other names as they were.
pub proof fn lemma_register_keeps_others(ts: Seq<Tool>, t: Tool, n: Seq<char>)
    requires
        distinct_names(ts),
        n != t.tool_name(),
    ensures
        named(registered_with(ts, t), n) == named(ts, n),
{
    lemma_index_named(ts, t.tool_name());
    lemma_index_named(ts, n);
    lemma_register_then_lookup(ts, t);
    let r = registered_with(ts, t);
    lemma_index_named(r, n);
    match index_named(ts, n) {
        Some(k) => {
            assert(r[k] == ts[k]);
            lemma_index_named_is(r, k);
        },
        None => {
            match index_named(r, n) {
                Some(k) => {
                    if k < ts.len() {
                        assert(r[k] == ts[k]);
                    }
                },
                None => {},
            }
        },
    }
}

/// Registering adds one tool when its name is new, and none when it
/// replaces one.
pub proof fn lemma_register_count(ts: Seq<Tool>, t: Tool)
    ensures
        registered_with(ts, t).len() == ts.len() + if named(ts, t.tool_name()) is None { 1int } else { 0int },
{
    lemma_index_named(ts, t.tool_name());
}

/// A tool's name and description, as the tool list shows them.
pub struct ToolInfo {
    pub name: String,
    pub description: String,
}

/// A call named a tool that is not registered.
pub struct ToolNotFound {
    pub name: String,
}

impl ToolNotFound {
    /// `Tool not found: <name>`.
    pub fn message(&self) -> (r: String)
        ensures
            r@ == "Tool not found: "@ + self.name@,
    {
        let mut m = owned("Tool not found: ");
        m.append(self.name.as_str());
        m
    }
}

/// The registry of the tools the server offers.
pub struct McpServer {
    tools: Vec<Tool>,
}

impl McpServer {
    /// The registered tools, in the order their names were first registered.
    pub closed spec fn registered(&self) -> Seq<Tool> {
        self.tools@
    }

    #[verifier::type_invariant]
    spec fn well_formed(&self) -> bool {
        distinct_names(self.tools@)
    }

    pub fn new() -> (r: McpServer)
        ensures
            r.registered() == Seq::<Tool>::empty(),
    {
        McpServer { tools: Vec::new() }
    }

    /// Where the tool named `name` stands.
    fn position(&self, name: &String) -> (r: Option<usize>)
        ensures
            match r {
                Some(i) => index_named(self.registered(), name@) == Some(i as int) && i < self.registered().len(),
                None => index_named(self.registered(), name@) is None,
            },
    {
        proof {
            use_type_invariant(self);
            lemma_index_named(self.tools@, name@);
        }
        let mut i: usize = 0;
        while i < self.tools.len()
            invariant
                i <= self.tools@.len(),
                distinct_names(self.tools@),
                forall|k: int| 0 <= k < i ==> #[trigger] self.tools@[k].tool_name() != name@,
            decreases self.tools@.len() - i,
        {
            let n = owned(self.tools[i].name());
            if n == *name {
                proof {
                    lemma_index_named_is(self.tools@, i as int);
                }
                return Some(i);
            }
            i = i + 1;
        }
        proof {
            match index_named(self.tools@, name@) {
                Some(k) => {
                    assert(self.tools@[k].tool_name() != name@);
                },
                None => {},
            }
        }
        None
    }

    /// Registers a tool under its name, in place of any tool of that name.
    pub fn register_tool(&mut self, tool: Tool)
        ensures
            final(self).registered() == registered_with(old(self).registered(), tool),
            named(final(self).registered(), tool.tool_name()) == Some(tool),
            forall|n: Seq<char>| n != tool.tool_name()
                ==> #[trigger] named(final(self).registered(), n) == named(old(self).registered(), n),
            final(self).registered().len() == old(self).registered().len()
                + if named(old(self).registered(), tool.tool_name()) is None { 1int } else { 0int },
            distinct_names(final(self).registered()),
    {
        proof {
            use_type_invariant(&*self);
            lemma_register_then_lookup(self.tools@, tool);
            lemma_register_count(self.tools@, tool);
            assert forall|n: Seq<char>| n != tool.tool_name()
                implies #[trigger] named(registered_with(self.tools@, tool), n) == named(self.tools@, n) by {
                lemma_register_keeps_others(self.tools@, tool, n);
            }
        }
        let name = owned(tool.name());
        match self.position(&name) {
            Some(i) => {
                let mut tools = Vec::new();
                std::mem::swap(&mut tools, &mut self.tools);
                tools.set(i, tool);
                self.tools = tools;
            },
            None => {
                let mut tools = Vec::new();
                std::mem::swap(&mut tools, &mut self.tools);
                tools.push(tool);
                self.tools = tools;
            },
        }
    }

    /// The name and description of each registered tool.
    pub fn list_tools(&self) -> (r: Vec<ToolInfo>)
        ensures
            distinct_names(self.registered()),
            r@.len() == self.registered().len(),
            forall|i: int| 0 <= i < r@.len() ==> {
                &&& #[trigger] r@[i].name@ == self.registered()[i].tool_name()
                &&& r@[i].description@ == self.registered()[i].tool_description()
            },
    {
        proof {
            use_type_invariant(self);
        }
        let mut out: Vec<ToolInfo> = Vec::new();
        let mut i: usize = 0;
        while i < self.tools.len()
            invariant
                i <= self.tools@.len(),
                out@.len() == i,
                forall|k: int| 0 <= k < i ==> #[trigger] out@[k].name@ == self.tools@[k].tool_name(),
                forall|k: int| 0 <= k < i ==> #[trigger] out@[k].description@ == self.tools@[k].tool_description(),
            decreases self.tools@.len() - i,
        {
            let t = &self.tools[i];
            let name = owned(t.name());
            let description = owned(t.description());
            let ghost before = out@;
            out.push(ToolInfo { name, description });
            assert forall|k: int| 0 <= k < i + 1 implies #[trigger] out@[k].name@ == self.tools@[k].tool_name() by {
                if k < i {
                    assert(out@[k] == before[k]);
                    assert(before[k].name@ == self.tools@[k].tool_name());
                }
            }
            i = i + 1;
        }
        out
    }

    /// The tool a call of `name` goes to, or the error that no tool has that
    /// name.
    pub fn call_tool(&self, name: &str) -> (r: Result<&Tool, ToolNotFound>)
        ensures
            distinct_names(self.registered()),
            match r {
                Ok(t) => named(self.registered(), name@) == Some(*t),
                Err(e) => named(self.registered(), name@) is None && e.name@ == name@,
            },
    {
        proof {
            use_type_invariant(self);
        }
        let n = owned(name);
        match self.position(&n) {
            Some(i) => Ok(&self.tools[i]),
            None => Err(ToolNotFound { name: n }),
        }
    }
}

} // verus!
