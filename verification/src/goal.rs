//! Goals: their types, and what the remote store says of them.

use vstd::prelude::*;
use vstd::string::StringExecFns;
use crate::text::{
    drop_spaces, lowered, same_text, skip_spaces, strip_separators, to_lower, trim, trimmed,
    without_separators,
};

verus! {

/// The types of goal that the remote store knows.
#[derive(Debug, Clone, Copy, PartialEq, Eq, Structural)]
pub enum GoalType {
    Hustler,
    Biker,
    Fatloser,
    Gainer,
    Inboxer,
    Drinker,
    Custom,
}

/// A text that names no goal type.
#[derive(Debug, PartialEq, Eq)]
pub struct GoalTypeParseError {
    pub value: String,
}

/// A goal that was deleted.
#[derive(Debug, PartialEq, Eq)]
pub struct DeletedGoal {
    pub id: String,
}

/// The answer to a request for an authentication token.
#[derive(Debug, PartialEq, Eq)]
pub struct AuthTokenResponse {
    /// The token, where the session was authenticated.
    pub auth_token: Option<String>,
    /// The fault, where it was not.
    pub error: Option<String>,
}

/// A text as names are compared: without white space around it, in lower
/// case, and without spaces and hyphens.
pub open spec fn normalized(value: Seq<char>) -> Seq<char> {
    without_separators(lowered(trimmed(value)), false)
}

/// The text of an action as actions are compared: as names are, and without
/// underscores too.
pub open spec fn normalized_action(action: Seq<char>) -> Seq<char> {
    without_separators(lowered(trimmed(action)), true)
}

impl GoalType {
    /// The name of the goal type, as the remote store writes it.
    pub open spec fn name(self) -> Seq<char> {
        match self {
            GoalType::Hustler => "hustler"@,
            GoalType::Biker => "biker"@,
            GoalType::Fatloser => "fatloser"@,
            GoalType::Gainer => "gainer"@,
            GoalType::Inboxer => "inboxer"@,
            GoalType::Drinker => "drinker"@,
            GoalType::Custom => "custom"@,
        }
    }

    /// The goal type of a name.
    pub open spec fn named(text: Seq<char>) -> Option<GoalType> {
        if text == "hustler"@ {
            Some(GoalType::Hustler)
        } else if text == "biker"@ {
            Some(GoalType::Biker)
        } else if text == "fatloser"@ {
            Some(GoalType::Fatloser)
        } else if text == "gainer"@ {
            Some(GoalType::Gainer)
        } else if text == "inboxer"@ {
            Some(GoalType::Inboxer)
        } else if text == "drinker"@ {
            Some(GoalType::Drinker)
        } else if text == "custom"@ {
            Some(GoalType::Custom)
        } else {
            None
        }
    }

    /// The name of the goal type, as the remote store writes it.
    pub fn as_str(self) -> (r: &'static str)
        ensures
            r@ == self.name(),
    {
        match self {
            GoalType::Hustler => "hustler",
            GoalType::Biker => "biker",
            GoalType::Fatloser => "fatloser",
            GoalType::Gainer => "gainer",
            GoalType::Inboxer => "inboxer",
            GoalType::Drinker => "drinker",
            GoalType::Custom => "custom",
        }
    }

    /// The goal type that a text names, however it is capitalised, spaced or
    /// hyphenated.
    pub fn from_str(value: &str) -> (r: Result<GoalType, GoalTypeParseError>)
        ensures
            match r {
                Ok(t) => GoalType::named(normalized(value@)) == Some(t),
                Err(e) => GoalType::named(normalized(value@)) is None && e.value@ == value@,
            },
    {
        let name = normalize(value);
        let name = name.as_str();
        if same_text(name, "hustler") {
            Ok(GoalType::Hustler)
        } else if same_text(name, "biker") {
            Ok(GoalType::Biker)
        } else if same_text(name, "fatloser") {
            Ok(GoalType::Fatloser)
        } else if same_text(name, "gainer") {
            Ok(GoalType::Gainer)
        } else if same_text(name, "inboxer") {
            Ok(GoalType::Inboxer)
        } else if same_text(name, "drinker") {
            Ok(GoalType::Drinker)
        } else if same_text(name, "custom") {
            Ok(GoalType::Custom)
        } else {
            Err(GoalTypeParseError { value: String::from_str(value) })
        }
    }
}

/// Whether a text is a name as names are compared: small letters of the
/// alphabet and nothing else.
pub open spec fn is_plain_name(s: Seq<char>) -> bool {
    forall|k: int| 0 <= k < s.len() ==> 0x61 <= #[trigger] s[k] as u32 <= 0x7A
}

/// Dropping the characters that part words from a text that holds none
/// leaves the text.
proof fn lemma_no_separators(s: Seq<char>)
    requires
        is_plain_name(s),
    ensures
        without_separators(s, false) == s,
    decreases s.len(),
{
    reveal(Seq::filter);
    if s.len() > 0 {
        let front = s.drop_last();
        assert forall|k: int| 0 <= k < front.len() implies 0x61 <= #[trigger] front[k] as u32
            <= 0x7A by {
            assert(front[k] == s[k]);
        }
        lemma_no_separators(front);
        assert(0x61 <= s[s.len() - 1] as u32 <= 0x7A);
        assert(front.push(s.last()) =~= s);
    }
}

/// A name as names are compared is compared as it stands.
pub proof fn plain_name_is_normal(s: Seq<char>)
    requires
        is_plain_name(s),
    ensures
        normalized(s) == s,
{
    if s.len() > 0 {
        assert(0x61 <= s[0] as u32 <= 0x7A);
        assert(0x61 <= s[s.len() - 1] as u32 <= 0x7A);
        assert(skip_spaces(s, 0) == 0);
        assert(drop_spaces(s, s.len() as int) == s.len());
        assert(s.subrange(0, s.len() as int) =~= s);
    }
    assert(trimmed(s) =~= s);
    assert(lowered(s) =~= s) by {
        assert forall|k: int| 0 <= k < s.len() implies lowered(s)[k] == s[k] by {
            assert(0x61 <= s[k] as u32 <= 0x7A);
        }
    }
    lemma_no_separators(s);
}

/// Reading the name of a goal type gives the goal type.
pub proof fn goal_type_reads_its_name(t: GoalType)
    ensures
        is_plain_name(t.name()),
        GoalType::named(normalized(t.name())) == Some(t),
{
    reveal_strlit("hustler");
    reveal_strlit("biker");
    reveal_strlit("fatloser");
    reveal_strlit("gainer");
    reveal_strlit("inboxer");
    reveal_strlit("drinker");
    reveal_strlit("custom");
    let s = t.name();
    assert(is_plain_name(s));
    plain_name_is_normal(s);
    assert("hustler"@.len() == 7 && "biker"@.len() == 5 && "fatloser"@.len() == 8);
    assert("gainer"@.len() == 6 && "inboxer"@.len() == 7 && "drinker"@.len() == 7);
    assert("custom"@.len() == 6);
    assert("hustler"@[0] == 'h' && "inboxer"@[0] == 'i' && "drinker"@[0] == 'd');
    assert("gainer"@[0] == 'g' && "custom"@[0] == 'c');
}

impl GoalTypeParseError {
    /// The notice for the fault: the text that was given, and the names that
    /// could have been.
    pub fn message(&self) -> (m: String)
        ensures
            m@ == "invalid goal type '"@ + self.value@
                + "'; expected one of: hustler, biker, fatloser, gainer, inboxer, drinker, custom"@,
    {
        let mut m = String::from_str("invalid goal type '");
        m.append(self.value.as_str());
        m.append("'; expected one of: hustler, biker, fatloser, gainer, inboxer, drinker, custom");
        m
    }
}

/// A text as names are compared.
pub fn normalize(value: &str) -> (r: String)
    ensures
        r@ == normalized(value@),
{
    let t = trim(value);
    let l = to_lower(t.as_str());
    strip_separators(l.as_str(), false)
}

/// The text of an action as actions are compared.
pub fn normalize_action(action: &str) -> (r: String)
    ensures
        r@ == normalized_action(action@),
{
    let t = trim(action);
    let l = to_lower(t.as_str());
    strip_separators(l.as_str(), true)
}

} // verus!
