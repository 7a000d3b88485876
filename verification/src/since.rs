//! The first game versions in which a command, a syntax or a value appeared.
use vstd::prelude::*;

use crate::text::{chars_of, eq, lowercase_of, message, split_first, split_once, to_lowercase};
use crate::version::{version_of_text, Version};

verus! {

/// For each game, the version that something appeared in, if known.
#[derive(Clone, Copy, Default, Hash, Debug, PartialEq, Eq)]
pub struct Since {
    flashpoint: Option<Version>,
    flashpoint_elite: Option<Version>,
    armed_assault: Option<Version>,
    arma_2: Option<Version>,
    arma_2_arrowhead: Option<Version>,
    take_on_helicopters: Option<Version>,
    arma_3: Option<Version>,
    argo: Option<Version>,
}

/// The contents of a `Since`: a version per game.
pub struct SinceView {
    pub flashpoint: Option<(u8, u8)>,
    pub flashpoint_elite: Option<(u8, u8)>,
    pub armed_assault: Option<(u8, u8)>,
    pub arma_2: Option<(u8, u8)>,
    pub arma_2_arrowhead: Option<(u8, u8)>,
    pub take_on_helicopters: Option<(u8, u8)>,
    pub arma_3: Option<(u8, u8)>,
    pub argo: Option<(u8, u8)>,
}

/// The view of an optional version.
pub open spec fn opt_version(o: Option<Version>) -> Option<(u8, u8)> {
    match o {
        Some(v) => Some(v@),
        None => None,
    }
}

/// The view of an optional borrowed version.
pub open spec fn opt_version_ref(o: Option<&Version>) -> Option<(u8, u8)> {
    match o {
        Some(v) => Some(v@),
        None => None,
    }
}

impl SinceView {
    /// No version known for any game.
    pub open spec fn none() -> SinceView {
        SinceView {
            flashpoint: None,
            flashpoint_elite: None,
            armed_assault: None,
            arma_2: None,
            arma_2_arrowhead: None,
            take_on_helicopters: None,
            arma_3: None,
            argo: None,
        }
    }

    /// The wiki key (lowercase) of a game set to a version, or `None` for an unknown key.
    pub open spec fn with_key(self, key: Seq<char>, v: (u8, u8)) -> Option<SinceView> {
        if key == "ofp"@ {
            Some(SinceView { flashpoint: Some(v), ..self })
        } else if key == "ofpe"@ {
            Some(SinceView { flashpoint_elite: Some(v), ..self })
        } else if key == "arma1"@ {
            Some(SinceView { armed_assault: Some(v), ..self })
        } else if key == "arma2"@ {
            Some(SinceView { arma_2: Some(v), ..self })
        } else if key == "arma2oa"@ {
            Some(SinceView { arma_2_arrowhead: Some(v), ..self })
        } else if key == "tkoh"@ {
            Some(SinceView { take_on_helicopters: Some(v), ..self })
        } else if key == "arma3"@ {
            Some(SinceView { arma_3: Some(v), ..self })
        } else if key == "argo"@ {
            Some(SinceView { argo: Some(v), ..self })
        } else {
            None
        }
    }
}

/// The versions of a `SinceView`, one per game, in the order of the games'
/// releases (the order of the fields).
pub open spec fn since_fields(s: SinceView) -> Seq<Option<(u8, u8)>> {
    seq![
        s.flashpoint,
        s.flashpoint_elite,
        s.armed_assault,
        s.arma_2,
        s.arma_2_arrowhead,
        s.take_on_helicopters,
        s.arma_3,
        s.argo,
    ]
}

/// The wiki's keys of the games, in the order of their releases:
/// Operation Flashpoint, its Elite edition, Armed Assault, Arma 2, Arma 2:
/// Operation Arrowhead, Take On Helicopters, Arma 3 and Argo.
pub open spec fn game_keys() -> Seq<Seq<char>> {
    seq!["ofp"@, "ofpe"@, "arma1"@, "arma2"@, "arma2oa"@, "tkoh"@, "arma3"@, "argo"@]
}

/// A game's wiki key sets that game's version and leaves the others: the key
/// of the `i`-th game sets the `i`-th version; a text that is no game's key
/// is refused.
pub proof fn lemma_game_keys(s: SinceView, key: Seq<char>, v: (u8, u8))
    ensures
        s.with_key(key, v) is Some <==> game_keys().contains(key),
        forall|i: int|
            0 <= i < 8 && key == #[trigger] game_keys()[i] ==> (s.with_key(key, v) matches Some(t) && since_fields(
                t,
            ) == since_fields(s).update(i, Some(v))),
{
    reveal_strlit("ofp");
    reveal_strlit("ofpe");
    reveal_strlit("arma1");
    reveal_strlit("arma2");
    reveal_strlit("arma2oa");
    reveal_strlit("tkoh");
    reveal_strlit("arma3");
    reveal_strlit("argo");
    assert("ofpe"@[0] != "tkoh"@[0]);
    assert("ofpe"@[0] != "argo"@[0]);
    assert("tkoh"@[0] != "argo"@[0]);
    assert("arma1"@[4] != "arma2"@[4]);
    assert("arma1"@[4] != "arma3"@[4]);
    assert("arma2"@[4] != "arma3"@[4]);
    let ks = game_keys();
    if game_keys().contains(key) {
        let j = choose|j: int| 0 <= j < ks.len() && ks[j] == key;
        assert(ks[j] == key);
    } else {
        assert(key != ks[0] && key != ks[1] && key != ks[2] && key != ks[3]);
        assert(key != ks[4] && key != ks[5] && key != ks[6] && key != ks[7]);
    }
    assert forall|i: int|
        0 <= i < 8 && key == #[trigger] game_keys()[i] implies (s.with_key(key, v) matches Some(t) && since_fields(
            t,
        ) == since_fields(s).update(i, Some(v))) by {
        let t = s.with_key(key, v)->Some_0;
        assert(since_fields(t) =~= since_fields(s).update(i, Some(v)));
    }
}

/// Distinct keys set distinct games: from no versions, two keys give the same
/// versions only when they are the same key.
pub proof fn lemma_game_keys_distinct(k1: Seq<char>, k2: Seq<char>, v: (u8, u8))
    ensures
        SinceView::none().with_key(k1, v) is Some && SinceView::none().with_key(k1, v) == SinceView::none().with_key(
            k2,
            v,
        ) ==> k1 == k2,
{
}

impl View for Since {
    type V = SinceView;

    closed spec fn view(&self) -> SinceView {
        SinceView {
            flashpoint: opt_version(self.flashpoint),
            flashpoint_elite: opt_version(self.flashpoint_elite),
            armed_assault: opt_version(self.armed_assault),
            arma_2: opt_version(self.arma_2),
            arma_2_arrowhead: opt_version(self.arma_2_arrowhead),
            take_on_helicopters: opt_version(self.take_on_helicopters),
            arma_3: opt_version(self.arma_3),
            argo: opt_version(self.argo),
        }
    }
}

/// The message of a key that names no game.
pub open spec fn unknown_since_key(key: Seq<char>) -> Seq<char> {
    "Unknown since key: "@ + key
}

/// The message of a `pSince` text without a space.
pub open spec fn invalid_psince(source: Seq<char>) -> Seq<char> {
    "Invalid pSince format: "@ + source
}

/// What setting a game's version from its wiki key and version text does:
/// the new contents, or the message of the error.
pub open spec fn since_after_wiki(s: SinceView, key: Seq<char>, value: Seq<char>) -> Result<SinceView, Seq<char>> {
    match version_of_text(value) {
        Err(e) => Err(e),
        Ok(v) => match s.with_key(lowercase_of(key), v) {
            Some(n) => Ok(n),
            None => Err(unknown_since_key(key)),
        },
    }
}

/// What setting a game's version from a `pSince` text (`key version`) does.
pub open spec fn since_after_psince(s: SinceView, source: Seq<char>) -> Result<SinceView, Seq<char>> {
    match split_first(source, seq![' ']) {
        None => Err(invalid_psince(source)),
        Some((key, value)) => since_after_wiki(s, key, value),
    }
}

impl Since {
    /// A `Since` with only the Arma 3 version set.
    pub fn arma3(version: &str) -> (r: Self)
        requires
            version_of_text(version@) is Ok,
        ensures
            r@ == (SinceView { arma_3: Some(version_of_text(version@)->Ok_0), ..SinceView::none() }),
    {
        let v = match Version::parse(version) {
            Ok(v) => v,
            Err(_) => {
                assert(false);
                Version::new(0, 0)
            },
        };
        let mut s = Self::empty();
        s.set_arma_3(Some(v));
        s
    }

    /// No version known for any game.
    pub fn empty() -> (r: Self)
        ensures
            r@ == SinceView::none(),
    {
        Since {
            flashpoint: None,
            flashpoint_elite: None,
            armed_assault: None,
            arma_2: None,
            arma_2_arrowhead: None,
            take_on_helicopters: None,
            arma_3: None,
            argo: None,
        }
    }

    pub fn flashpoint(&self) -> (r: Option<&Version>)
        ensures
            opt_version_ref(r) == self@.flashpoint,
    {
        self.flashpoint.as_ref()
    }

    pub fn set_flashpoint(&mut self, flashpoint: Option<Version>)
        ensures
            final(self)@ == (SinceView { flashpoint: opt_version(flashpoint), ..old(self)@ }),
    {
        self.flashpoint = flashpoint;
    }

    pub fn flashpoint_elite(&self) -> (r: Option<&Version>)
        ensures
            opt_version_ref(r) == self@.flashpoint_elite,
    {
        self.flashpoint_elite.as_ref()
    }

    pub fn set_flashpoint_elite(&mut self, flashpoint_elite: Option<Version>)
        ensures
            final(self)@ == (SinceView { flashpoint_elite: opt_version(flashpoint_elite), ..old(self)@ }),
    {
        self.flashpoint_elite = flashpoint_elite;
    }

    pub fn armed_assault(&self) -> (r: Option<&Version>)
        ensures
            opt_version_ref(r) == self@.armed_assault,
    {
        self.armed_assault.as_ref()
    }

    pub fn set_armed_assault(&mut self, armed_assault: Option<Version>)
        ensures
            final(self)@ == (SinceView { armed_assault: opt_version(armed_assault), ..old(self)@ }),
    {
        self.armed_assault = armed_assault;
    }

    pub fn arma_2(&self) -> (r: Option<&Version>)
        ensures
            opt_version_ref(r) == self@.arma_2,
    {
        self.arma_2.as_ref()
    }

    pub fn set_arma_2(&mut self, arma_2: Option<Version>)
        ensures
            final(self)@ == (SinceView { arma_2: opt_version(arma_2), ..old(self)@ }),
    {
        self.arma_2 = arma_2;
    }

    pub fn arma_2_arrowhead(&self) -> (r: Option<&Version>)
        ensures
            opt_version_ref(r) == self@.arma_2_arrowhead,
    {
        self.arma_2_arrowhead.as_ref()
    }

    pub fn set_arma_2_arrowhead(&mut self, arma_2_arrowhead: Option<Version>)
        ensures
            final(self)@ == (SinceView { arma_2_arrowhead: opt_version(arma_2_arrowhead), ..old(self)@ }),
    {
        self.arma_2_arrowhead = arma_2_arrowhead;
    }

    pub fn take_on_helicopters(&self) -> (r: Option<&Version>)
        ensures
            opt_version_ref(r) == self@.take_on_helicopters,
    {
        self.take_on_helicopters.as_ref()
    }

    pub fn set_take_on_helicopters(&mut self, take_on_helicopters: Option<Version>)
        ensures
            final(self)@ == (SinceView { take_on_helicopters: opt_version(take_on_helicopters), ..old(self)@ }),
    {
        self.take_on_helicopters = take_on_helicopters;
    }

    pub fn arma_3(&self) -> (r: Option<&Version>)
        ensures
            opt_version_ref(r) == self@.arma_3,
    {
        self.arma_3.as_ref()
    }

    pub fn set_arma_3(&mut self, arma_3: Option<Version>)
        ensures
            final(self)@ == (SinceView { arma_3: opt_version(arma_3), ..old(self)@ }),
    {
        self.arma_3 = arma_3;
    }

    pub fn argo(&self) -> (r: Option<&Version>)
        ensures
            opt_version_ref(r) == self@.argo,
    {
        self.argo.as_ref()
    }

    pub fn set_argo(&mut self, argo: Option<Version>)
        ensures
            final(self)@ == (SinceView { argo: opt_version(argo), ..old(self)@ }),
    {
        self.argo = argo;
    }

    /// Sets a game's version from a `pSince` text: the wiki key, a space, the version.
    pub fn set_from_psince(&mut self, source: &str) -> (r: Result<(), String>)
        ensures
            match since_after_psince(old(self)@, source@) {
                Ok(n) => r is Ok && final(self)@ == n,
                Err(m) => r matches Err(e) && e@ == m && final(self)@ == old(self)@,
            },
    {
        let c = chars_of(source);
        let sp = [' '];
        assert(sp@ =~= seq![' ']);
        let Some((key, value)) = split_once(&c, sp.as_slice()) else {
            return Err(message("Invalid pSince format: ", &c));
        };
        self.set_from_wiki_chars(&key, &value)
    }

    /// Sets the version of the game that a wiki key names, from a version text.
    pub fn set_from_wiki(&mut self, key: &str, value: &str) -> (r: Result<(), String>)
        ensures
            match since_after_wiki(old(self)@, key@, value@) {
                Ok(n) => r is Ok && final(self)@ == n,
                Err(m) => r matches Err(e) && e@ == m && final(self)@ == old(self)@,
            },
    {
        let k = chars_of(key);
        let v = chars_of(value);
        self.set_from_wiki_chars(&k, &v)
    }

    fn set_from_wiki_chars(&mut self, key: &[char], value: &[char]) -> (r: Result<(), String>)
        ensures
            match since_after_wiki(old(self)@, key@, value@) {
                Ok(n) => r is Ok && final(self)@ == n,
                Err(m) => r matches Err(e) && e@ == m && final(self)@ == old(self)@,
            },
    {
        let v = Version::parse_chars(value)?;
        self.set_version_chars(key, v)
    }

    /// Sets the version of the game that a wiki key names.
    pub fn set_version(&mut self, key: &str, version: Version) -> (r: Result<(), String>)
        ensures
            match old(self)@.with_key(lowercase_of(key@), version@) {
                Some(n) => r is Ok && final(self)@ == n,
                None => r matches Err(e) && e@ == unknown_since_key(key@) && final(self)@ == old(self)@,
            },
    {
        let k = chars_of(key);
        self.set_version_chars(&k, version)
    }

    pub fn set_version_chars(&mut self, key: &[char], version: Version) -> (r: Result<(), String>)
        ensures
            match old(self)@.with_key(lowercase_of(key@), version@) {
                Some(n) => r is Ok && final(self)@ == n,
                None => r matches Err(e) && e@ == unknown_since_key(key@) && final(self)@ == old(self)@,
            },
    {
        let ks = crate::text::string_of(key);
        let lower = to_lowercase(ks.as_str());
        let l = chars_of(lower.as_str());
        if eq(&l, &chars_of("ofp")) {
            self.set_flashpoint(Some(version));
        } else if eq(&l, &chars_of("ofpe")) {
            self.set_flashpoint_elite(Some(version));
        } else if eq(&l, &chars_of("arma1")) {
            self.set_armed_assault(Some(version));
        } else if eq(&l, &chars_of("arma2")) {
            self.set_arma_2(Some(version));
        } else if eq(&l, &chars_of("arma2oa")) {
            self.set_arma_2_arrowhead(Some(version));
        } else if eq(&l, &chars_of("tkoh")) {
            self.set_take_on_helicopters(Some(version));
        } else if eq(&l, &chars_of("arma3")) {
            self.set_arma_3(Some(version));
        } else if eq(&l, &chars_of("argo")) {
            self.set_argo(Some(version));
        } else {
            return Err(message("Unknown since key: ", key));
        }
        Ok(())
    }
}

} // verus!
