//! Quests: open bounty issues suggested to the user, each shown with the
//! reference that starts work on it.
use vstd::prelude::*;
use crate::text::{decimal_string, decimal_text};

verus! {

/// A quest issue that the user can pick.
#[derive(Debug)]
pub struct QuestIssue {
    pub title: String,
    /// The issue reference, `organization/repository#number`.
    pub repo_ref: String,
}

/// `n` written in decimal, with a leading `-` where it is negative.
pub open spec fn signed_text(n: int) -> Seq<char> {
    if n < 0 {
        seq!['-'] + decimal_text((-n) as nat)
    } else {
        decimal_text(n as nat)
    }
}

impl QuestIssue {
    /// The quest for issue `number` of `organization/repository`.
    pub fn from_quest(organization: &str, repository: &str, number: i32, title: String) -> (r: QuestIssue)
        ensures
            r.title@ == title@,
            r.repo_ref@ == organization@ + seq!['/'] + repository@ + seq!['#'] + signed_text(number as int),
    {
        let slash = "/";
        let hash = "#";
        let minus = "-";
        proof {
            reveal_strlit("/");
            reveal_strlit("#");
            reveal_strlit("-");
        }
        let head = String::from_str(organization).concat(slash).concat(repository).concat(hash);
        let repo_ref = if number < 0 {
            let magnitude = (0i64 - number as i64) as u64;
            head.concat(minus).concat(decimal_string(magnitude).as_str())
        } else {
            head.concat(decimal_string(number as u64).as_str())
        };
        QuestIssue { title, repo_ref }
    }

    /// The line shown for the quest: its title, a space, and its reference.
    pub fn label(&self) -> (r: String)
        ensures
            r@ == self.title@ + seq![' '] + self.repo_ref@,
    {
        let space = " ";
        proof {
            reveal_strlit(" ");
        }
        String::from_str(self.title.as_str()).concat(space).concat(self.repo_ref.as_str())
    }
}

} // verus!
