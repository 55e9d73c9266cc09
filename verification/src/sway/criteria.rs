//! Window criteria: the bracketed selector list that some runtime commands
//! carry in front of them.
use crate::text::{dec_str, join_with, u32_text};
use vstd::prelude::*;

verus! {

/// The shell type a criterion may name.
#[derive(Debug, Clone, PartialEq, Eq)]
pub enum ShellType {
    XdgShell,
    XWayland,
    Focused,
}

impl ShellType {
    /// The canonical spelling.
    pub open spec fn text(self) -> Seq<char> {
        match self {
            ShellType::XdgShell => "xdg_shell"@,
            ShellType::XWayland => "xwayland"@,
            ShellType::Focused => "__focused__"@,
        }
    }

    /// Renders the canonical spelling.
    pub fn to_string(&self) -> (r: String)
        ensures
            r@ == self.text(),
    {
        match self {
            ShellType::XdgShell => String::from_str("xdg_shell"),
            ShellType::XWayland => String::from_str("xwayland"),
            ShellType::Focused => String::from_str("__focused__"),
        }
    }
}

/// Which urgent window a criterion picks.
#[derive(Debug, Clone, PartialEq, Eq)]
pub enum UrgentState {
    First,
    Last,
    Latest,
    Newest,
    Oldest,
    Recent,
}

impl UrgentState {
    /// The canonical spelling.
    pub open spec fn text(self) -> Seq<char> {
        match self {
            UrgentState::First => "first"@,
            UrgentState::Last => "last"@,
            UrgentState::Latest => "latest"@,
            UrgentState::Newest => "newest"@,
            UrgentState::Oldest => "oldest"@,
            UrgentState::Recent => "recent"@,
        }
    }

    /// Renders the canonical spelling.
    pub fn to_string(&self) -> (r: String)
        ensures
            r@ == self.text(),
    {
        match self {
            UrgentState::First => String::from_str("first"),
            UrgentState::Last => String::from_str("last"),
            UrgentState::Latest => String::from_str("latest"),
            UrgentState::Newest => String::from_str("newest"),
            UrgentState::Oldest => String::from_str("oldest"),
            UrgentState::Recent => String::from_str("recent"),
        }
    }
}

/// One window criterion.
#[derive(Debug, Clone, PartialEq, Eq)]
pub enum Criteria {
    All,
    AppId(String),
    Class(String),
    ConId(String),
    ConMark(String),
    Floating,
    Id(u32),
    Instance(String),
    Pid(u32),
    Shell(ShellType),
    Tiling,
    Title(String),
    Urgent,
    WindowRole(String),
    WindowType(String),
    Workspace(String),
}

/// The canonical text of one criterion.
pub open spec fn criteria_text(c: Criteria) -> Seq<char> {
    match c {
        Criteria::All => "all"@,
        Criteria::AppId(s) => "app_id=\""@ + s@ + "\""@,
        Criteria::Class(s) => "class=\""@ + s@ + "\""@,
        Criteria::ConId(s) => "con_id=\""@ + s@ + "\""@,
        Criteria::ConMark(s) => "con_mark=\""@ + s@ + "\""@,
        Criteria::Floating => "floating"@,
        Criteria::Id(n) => "id="@ + dec_str(n as int),
        Criteria::Instance(s) => "instance=\""@ + s@ + "\""@,
        Criteria::Pid(n) => "pid="@ + dec_str(n as int),
        Criteria::Shell(st) => "shell_type=\""@ + st.text() + "\""@,
        Criteria::Tiling => "tiling"@,
        Criteria::Title(s) => "title=\""@ + s@ + "\""@,
        Criteria::Urgent => "urgent"@,
        Criteria::WindowRole(s) => "window_role=\""@ + s@ + "\""@,
        Criteria::WindowType(s) => "window_type=\""@ + s@ + "\""@,
        Criteria::Workspace(s) => "workspace=\""@ + s@ + "\""@,
    }
}

impl Criteria {
    /// Renders the canonical text.
    pub fn to_string(&self) -> (r: String)
        ensures
            r@ == criteria_text(*self),
    {
        match self {
            Criteria::All => String::from_str("all"),
            Criteria::AppId(s) => quoted_pair("app_id=\"", s),
            Criteria::Class(s) => quoted_pair("class=\"", s),
            Criteria::ConId(s) => quoted_pair("con_id=\"", s),
            Criteria::ConMark(s) => quoted_pair("con_mark=\"", s),
            Criteria::Floating => String::from_str("floating"),
            Criteria::Id(n) => {
                let mut acc = String::from_str("id=");
                let m = u32_text(*n);
                acc.append(m.as_str());
                acc
            },
            Criteria::Instance(s) => quoted_pair("instance=\"", s),
            Criteria::Pid(n) => {
                let mut acc = String::from_str("pid=");
                let m = u32_text(*n);
                acc.append(m.as_str());
                acc
            },
            Criteria::Shell(st) => {
                let mut acc = String::from_str("shell_type=\"");
                let t = st.to_string();
                acc.append(t.as_str());
                acc.append("\"");
                acc
            },
            Criteria::Tiling => String::from_str("tiling"),
            Criteria::Title(s) => quoted_pair("title=\"", s),
            Criteria::Urgent => String::from_str("urgent"),
            Criteria::WindowRole(s) => quoted_pair("window_role=\"", s),
            Criteria::WindowType(s) => quoted_pair("window_type=\"", s),
            Criteria::Workspace(s) => quoted_pair("workspace=\"", s),
        }
    }
}

/// Renders a key prefix, a quoted value, and the closing quote.
fn quoted_pair(prefix: &str, value: &String) -> (r: String)
    ensures
        r@ == prefix@ + value@ + "\""@,
{
    let mut acc = String::from_str(prefix);
    acc.append(value.as_str());
    acc.append("\"");
    acc
}

/// An ordered list of criteria, rendered space-joined inside brackets.
#[derive(Debug, Clone, PartialEq, Eq)]
pub struct CriteriaVec(pub Vec<Criteria>);

/// The canonical text of a criteria list.
pub open spec fn criteria_vec_text(cs: Seq<Criteria>) -> Seq<char> {
    "["@ + join_with(cs.map_values(|c: Criteria| criteria_text(c)), " "@) + "]"@
}

impl CriteriaVec {
    /// An empty list.
    pub fn new() -> (r: Self)
        ensures
            r.0@ == Seq::<Criteria>::empty(),
    {
        let r = CriteriaVec(Vec::new());
        proof {
            assert(r.0@ =~= Seq::<Criteria>::empty());
        }
        r
    }

    /// The given criteria as a list.
    pub fn from(lst: Vec<Criteria>) -> (r: Self)
        ensures
            r.0@ == lst@,
    {
        CriteriaVec(lst)
    }

    /// Appends one criterion.
    pub fn insert(&mut self, criteria: Criteria)
        ensures
            final(self).0@ == old(self).0@.push(criteria),
    {
        self.0.push(criteria);
    }

    /// Renders the list space-joined inside brackets.
    pub fn to_string(&self) -> (r: String)
        ensures
            r@ == criteria_vec_text(self.0@),
    {
        let mut texts: Vec<String> = Vec::new();
        let mut i: usize = 0;
        proof {
            assert(texts.deep_view() =~= self.0@.take(0).map_values(
                |c: Criteria| criteria_text(c),
            ));
        }
        while i < self.0.len()
            invariant
                0 <= i <= self.0.len(),
                texts.deep_view() == self.0@.take(i as int).map_values(
                    |c: Criteria| criteria_text(c),
                ),
            decreases self.0.len() - i,
        {
            let ghost old_dv = texts.deep_view();
            let t = self.0[i].to_string();
            texts.push(t);
            proof {
                assert(texts.deep_view() =~= old_dv.push(criteria_text(self.0@[i as int])));
                assert(texts.deep_view() =~= self.0@.take(i + 1).map_values(
                    |c: Criteria| criteria_text(c),
                ));
            }
            i = i + 1;
        }
        proof {
            assert(self.0@.take(self.0.len() as int) =~= self.0@);
        }
        let mut acc = String::from_str("[");
        let joined = crate::text::join_strings(&texts, " ");
        acc.append(joined.as_str());
        acc.append("]");
        acc
    }
}

impl Default for CriteriaVec {
    /// An empty list.
    fn default() -> (r: Self)
        ensures
            r.0@ == Seq::<Criteria>::empty(),
    {
        CriteriaVec::new()
    }
}

} // verus!
