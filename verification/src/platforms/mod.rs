//! The streaming platforms a recorder can follow, and their parsers.
use vstd::prelude::*;

use crate::text::{append_str, chars_of, eq_str, string_of};

pub mod bilibili;
pub mod common;
pub mod douyin;
pub mod douyu;
pub mod huya;
pub mod kuaishou;
pub mod polls;
pub mod tiktok;
pub mod twitch;
pub mod youtube;

verus! {

/// A streaming platform, identified by a lower-case name.
#[derive(Debug, Clone, Copy, PartialEq, Eq, Hash, Structural)]
pub enum PlatformType {
    BiliBili,
    Douyin,
    Huya,
    Youtube,
    Kuaishou,
    Xiaohongshu,
    TikTok,
    Weibo,
}

impl PlatformType {
    /// The platform's name as it appears in paths and settings.
    pub open spec fn name(self) -> Seq<char> {
        match self {
            PlatformType::BiliBili => "bilibili"@,
            PlatformType::Douyin => "douyin"@,
            PlatformType::Huya => "huya"@,
            PlatformType::Youtube => "youtube"@,
            PlatformType::Kuaishou => "kuaishou"@,
            PlatformType::Xiaohongshu => "xiaohongshu"@,
            PlatformType::TikTok => "tiktok"@,
            PlatformType::Weibo => "weibo"@,
        }
    }

    /// Whether `s` names a platform.
    pub open spec fn is_name(s: Seq<char>) -> bool {
        exists|p: PlatformType| p.name() == s
    }

    pub fn as_str(&self) -> (r: &'static str)
        ensures
            r@ == self.name(),
    {
        match self {
            PlatformType::BiliBili => "bilibili",
            PlatformType::Douyin => "douyin",
            PlatformType::Huya => "huya",
            PlatformType::Youtube => "youtube",
            PlatformType::Kuaishou => "kuaishou",
            PlatformType::Xiaohongshu => "xiaohongshu",
            PlatformType::TikTok => "tiktok",
            PlatformType::Weibo => "weibo",
        }
    }

    /// Parses a platform name (case sensitive). An unknown name is refused
    /// with the message `Invalid platform type: {s}`.
    pub fn parse(s: &str) -> (r: Result<PlatformType, String>)
        ensures
            match r {
                Ok(p) => p.name() == s@,
                Err(e) => !Self::is_name(s@) && e@ == "Invalid platform type: "@ + s@,
            },
    {
        let v = chars_of(s);
        if eq_str(&v, "bilibili") {
            return Ok(PlatformType::BiliBili);
        }
        if eq_str(&v, "douyin") {
            return Ok(PlatformType::Douyin);
        }
        if eq_str(&v, "huya") {
            return Ok(PlatformType::Huya);
        }
        if eq_str(&v, "youtube") {
            return Ok(PlatformType::Youtube);
        }
        if eq_str(&v, "kuaishou") {
            return Ok(PlatformType::Kuaishou);
        }
        if eq_str(&v, "xiaohongshu") {
            return Ok(PlatformType::Xiaohongshu);
        }
        if eq_str(&v, "tiktok") {
            return Ok(PlatformType::TikTok);
        }
        if eq_str(&v, "weibo") {
            return Ok(PlatformType::Weibo);
        }
        let mut msg = chars_of("Invalid platform type: ");
        append_str(&mut msg, s);
        assert forall|p: PlatformType| p.name() != s@ by {
            match p {
                PlatformType::BiliBili => {},
                PlatformType::Douyin => {},
                PlatformType::Huya => {},
                PlatformType::Youtube => {},
                PlatformType::Kuaishou => {},
                PlatformType::Xiaohongshu => {},
                PlatformType::TikTok => {},
                PlatformType::Weibo => {},
            }
        }
        Err(string_of(&msg))
    }
}

/// Parsing the name of a platform gives back that platform: whatever
/// `PlatformType::parse` may return for `p.name()` (its contract), it is
/// `Ok(p)`.
pub proof fn platform_name_parses_back(p: PlatformType, r: Result<PlatformType, String>)
    requires
        match r {
            Ok(q) => q.name() == p.name(),
            Err(_) => !PlatformType::is_name(p.name()),
        },
    ensures
        r == Ok::<PlatformType, String>(p),
{
    match r {
        Ok(q) => {
            lemma_platform_names_distinct(p, q);
        },
        Err(_) => {
            assert(PlatformType::is_name(p.name()));
        },
    }
}

/// Distinct platforms have distinct names, so parsing the name of a
/// platform (`PlatformType::parse`) gives back that platform.
pub proof fn lemma_platform_names_distinct(a: PlatformType, b: PlatformType)
    ensures
        a.name() == b.name() ==> a == b,
{
    reveal_strlit("bilibili");
    reveal_strlit("douyin");
    reveal_strlit("huya");
    reveal_strlit("youtube");
    reveal_strlit("kuaishou");
    reveal_strlit("xiaohongshu");
    reveal_strlit("tiktok");
    reveal_strlit("weibo");
    if a.name() == b.name() && a != b {
        assert(a.name().len() == b.name().len());
        assert(a.name()[0] == b.name()[0]);
        assert(a.name()[1] == b.name()[1]);
    }
}

impl std::str::FromStr for PlatformType {
    type Err = String;

    /// `PlatformType::parse`: the platform whose name `s` is, else the
    /// error naming `s`.
    fn from_str(s: &str) -> (r: Result<Self, Self::Err>)
        ensures
            match r {
                Ok(p) => p.name() == s@,
                Err(e) => !Self::is_name(s@) && e@ == "Invalid platform type: "@ + s@,
            },
    {
        PlatformType::parse(s)
    }
}

} // verus!
