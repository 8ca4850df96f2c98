//! Changing a value in a container's configuration.
use vstd::prelude::*;
use crate::environment::{concat, container_dir, container_dir_spec};
use crate::json::{json_document, read_setting, setting, setting_of, ConfigError};
use crate::text::{absent_pattern_keeps_text, occurs_at, replace_all, replaced};

verus! {

/// A request to set configuration value `key` of distribution
/// `<distribution>-<verisons>` to `value`.
pub struct Configuration {
    pub distribution: String,
    pub verisons: String,
    pub key: String,
    pub value: String,
}

impl Configuration {
    /// The configuration file of the distribution:
    /// `CONTAINER_PATH/<d>-<v>/usr/share/at/config.json`.
    pub fn config_path(&self) -> (r: String)
        ensures
            r@ == container_dir_spec(self.distribution@, self.verisons@)
                + "/usr/share/at/config.json"@,
    {
        let dir = container_dir(self.distribution.as_str(), self.verisons.as_str());
        concat(dir.as_str(), "/usr/share/at/config.json")
    }

    /// The configuration text `contents` with every occurrence of `key`
    /// replaced by the requested value.
    pub fn change_contenttext(&self, contents: &str, key: &str) -> (r: String)
        ensures
            r@ == replaced(contents@, key@, self.value@),
    {
        replace_all(contents, key, self.value.as_str())
    }

    /// The new configuration text: the current value of `key` (its JSON
    /// text without the surrounding quotes) is replaced, wherever it occurs
    /// in `contents`, by the requested value.  `contents` must be JSON with
    /// a member `key`: the tool stops on any other text ("JSON parse
    /// failed", or "<key> not found in config"), before this call.
    pub fn parse(&self, contents: &str) -> (r: String)
        requires
            json_document(contents@) is Some,
            setting(json_document(contents@)->0, self.key@) is Some,
        ensures
            r@ == replaced(
                contents@,
                setting(json_document(contents@)->0, self.key@)->0,
                self.value@,
            ),
    {
        let old = setting_of(contents, self.key.as_str());
        self.change_contenttext(contents, old.as_str())
    }

    /// `parse` where `contents` is JSON with a member `key`; otherwise
    /// `Malformed`, or `Missing(key)`.
    pub fn try_parse(&self, contents: &str) -> (r: Result<String, ConfigError>)
        ensures
            json_document(contents@) is None ==> r == Err::<String, ConfigError>(
                ConfigError::Malformed,
            ),
            json_document(contents@) is Some ==> match r {
                Ok(t) => setting(json_document(contents@)->0, self.key@) matches Some(old)
                    && t@ == replaced(contents@, old, self.value@),
                Err(ConfigError::Missing(k)) => k@ == self.key@ && setting(
                    json_document(contents@)->0,
                    self.key@,
                ) is None,
                Err(ConfigError::Malformed) => false,
            },
    {
        read_setting(contents, self.key.as_str())?;
        Ok(self.parse(contents))
    }
}

/// Setting a value to what it already is leaves the configuration text as
/// it was.
pub proof fn same_value_keeps_text(s: Seq<char>, p: Seq<char>)
    ensures
        replaced(s, p, p) == s,
    decreases s.len(),
{
    if p.len() == 0 {
        if s.len() > 0 {
            same_value_keeps_text(s.drop_first(), p);
            assert(s =~= seq![s[0]] + s.drop_first());
        }
    } else if s.len() < p.len() {
    } else if s.take(p.len() as int) == p {
        same_value_keeps_text(s.skip(p.len() as int), p);
        assert(s =~= s.take(p.len() as int) + s.skip(p.len() as int));
    } else {
        same_value_keeps_text(s.drop_first(), p);
        assert(s =~= seq![s[0]] + s.drop_first());
    }
}

/// Setting a value and then setting it back restores the configuration
/// text, where the new value is not empty and begins with a character the
/// text does not hold.  (Without that condition it can fail: in `ab`,
/// setting `b` to `aa` gives `aaa`, and setting `aa` back to `b` gives
/// `ba`.)
pub proof fn set_then_restore(s: Seq<char>, old: Seq<char>, new: Seq<char>)
    requires
        old.len() > 0,
        new.len() > 0,
        !s.contains(new[0]),
    ensures
        replaced(replaced(s, old, new), new, old) == s,
    decreases s.len(),
{
    let m = old.len() as int;
    let n = new.len() as int;
    if s.len() < old.len() {
        assert forall|i: int| !occurs_at(s, new, i) by {
            if occurs_at(s, new, i) {
                assert(s.subrange(i, i + n)[0] == s[i]);
                assert(s.contains(s[i]));
            }
        }
        absent_pattern_keeps_text(s, new, old);
    } else if s.take(m) == old {
        let rest = s.skip(m);
        assert forall|c: char| rest.contains(c) implies s.contains(c) by {
            let k = choose|k: int| 0 <= k < rest.len() && rest[k] == c;
            assert(s[k + m] == c);
        }
        set_then_restore(rest, old, new);
        let r1 = replaced(rest, old, new);
        let x = new + r1;
        assert(x.take(n) =~= new);
        assert(x.skip(n) =~= r1);
        assert(replaced(x, new, old) == old + replaced(r1, new, old));
        assert(s =~= s.take(m) + s.skip(m));
    } else {
        let rest = s.drop_first();
        assert forall|c: char| rest.contains(c) implies s.contains(c) by {
            let k = choose|k: int| 0 <= k < rest.len() && rest[k] == c;
            assert(s[k + 1] == c);
        }
        set_then_restore(rest, old, new);
        let r1 = replaced(rest, old, new);
        let x = seq![s[0]] + r1;
        assert(s.contains(s[0]));
        assert(x.drop_first() =~= r1);
        if x.len() >= new.len() {
            assert(x.take(n)[0] == s[0]);
            assert(x.take(n) != new);
        } else {
            assert(replaced(r1, new, old) == r1);
        }
        assert(s =~= seq![s[0]] + rest);
    }
}

} // verus!
