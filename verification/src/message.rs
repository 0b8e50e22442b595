//! The commands that reconfigure a layout.

use vstd::prelude::*;

verus! {

/// A command sent to a layout. Each layout acts on the commands that mean
/// something to it and ignores the others.
pub enum LayoutMsg {
    /// Give the master column a larger share of the width.
    Increase,
    /// Give the master column a smaller share of the width.
    Decrease,
    /// One more window in the master column.
    IncreaseMaster,
    /// One window less in the master column.
    DecreaseMaster,
    /// Split the area horizontally; no layout of this crate acts on it.
    SplitHorizontal,
    /// Split the area vertically; no layout of this crate acts on it.
    SplitVertical,
    /// Select the layout after the selected one, the first after the last.
    NextLayout,
    /// Select the layout before the selected one, the last before the first.
    PrevLayout,
    /// Select the first layout.
    FirstLayout,
    /// Select the last layout.
    LastLayout,
    /// A command for layouts defined elsewhere.
    Custom(String),
}

impl Clone for LayoutMsg {
    /// The same command, with a copy of its text where it has one.
    fn clone(&self) -> (msg: LayoutMsg)
        ensures
            msg == *self,
    {
        match self {
            LayoutMsg::Increase => LayoutMsg::Increase,
            LayoutMsg::Decrease => LayoutMsg::Decrease,
            LayoutMsg::IncreaseMaster => LayoutMsg::IncreaseMaster,
            LayoutMsg::DecreaseMaster => LayoutMsg::DecreaseMaster,
            LayoutMsg::SplitHorizontal => LayoutMsg::SplitHorizontal,
            LayoutMsg::SplitVertical => LayoutMsg::SplitVertical,
            LayoutMsg::NextLayout => LayoutMsg::NextLayout,
            LayoutMsg::PrevLayout => LayoutMsg::PrevLayout,
            LayoutMsg::FirstLayout => LayoutMsg::FirstLayout,
            LayoutMsg::LastLayout => LayoutMsg::LastLayout,
            LayoutMsg::Custom(val) => LayoutMsg::Custom(val.clone()),
        }
    }
}

impl LayoutMsg {
    /// Whether the command selects another layout of a [`crate::ChooseLayout`].
    pub open spec fn is_navigation(self) -> bool {
        self is NextLayout || self is PrevLayout || self is FirstLayout || self is LastLayout
    }

    /// The text of the command in logs. The text of `IncreaseMaster` is
    /// `IncreasMaster`: the texts are stable identifiers that log readers
    /// match on, and none is respelled.
    pub open spec fn spec_fmt(self) -> Seq<char> {
        match self {
            LayoutMsg::Increase => "Increase"@,
            LayoutMsg::Decrease => "Decrease"@,
            LayoutMsg::IncreaseMaster => "IncreasMaster"@,
            LayoutMsg::DecreaseMaster => "DecreaseMaster"@,
            LayoutMsg::SplitHorizontal => "SplitHorizontal"@,
            LayoutMsg::SplitVertical => "SplitVertical"@,
            LayoutMsg::NextLayout => "NextLayout"@,
            LayoutMsg::PrevLayout => "PrevLayout"@,
            LayoutMsg::FirstLayout => "FirstLayout"@,
            LayoutMsg::LastLayout => "LastLayout"@,
            LayoutMsg::Custom(val) => "Custom("@ + val@ + ")"@,
        }
    }

    /// The text of the command, for logs: the name of the variant, and
    /// `Custom(..)` around the text that a custom command carries.
    pub fn fmt(&self) -> (s: String)
        ensures
            s@ == self.spec_fmt(),
    {
        match self {
            LayoutMsg::Increase => String::from_str("Increase"),
            LayoutMsg::Decrease => String::from_str("Decrease"),
            LayoutMsg::IncreaseMaster => String::from_str("IncreasMaster"),
            LayoutMsg::DecreaseMaster => String::from_str("DecreaseMaster"),
            LayoutMsg::SplitHorizontal => String::from_str("SplitHorizontal"),
            LayoutMsg::SplitVertical => String::from_str("SplitVertical"),
            LayoutMsg::NextLayout => String::from_str("NextLayout"),
            LayoutMsg::PrevLayout => String::from_str("PrevLayout"),
            LayoutMsg::FirstLayout => String::from_str("FirstLayout"),
            LayoutMsg::LastLayout => String::from_str("LastLayout"),
            LayoutMsg::Custom(val) => {
                let mut s = String::from_str("Custom(");
                s.append(val.as_str());
                s.append(")");
                s
            },
        }
    }
}

} // verus!
