//! Credentials for remote transports: the SSH command that makes the transport
//! use the key configured in the settings.

use vstd::prelude::*;
use vstd::string::*;
use crate::error::AppError;
use crate::text::{concat3, has_prefix, starts_with};
use crate::validate::{is_white_space, white_space};

verus! {

/// Whether `s` holds nothing but whitespace.
pub open spec fn blank(s: Seq<char>) -> bool {
    forall|i: int| 0 <= i < s.len() ==> is_white_space(#[trigger] s[i])
}

/// `key` with a leading `~/` read against `home`.
pub open spec fn expanded(key: Seq<char>, home: Seq<char>) -> Seq<char> {
    if starts_with(key, "~/"@) {
        home + key.subrange(1, key.len() as int)
    } else {
        key
    }
}

/// `s` with each double quote escaped by a backslash.
pub open spec fn escaped(s: Seq<char>) -> Seq<char>
    decreases s.len(),
{
    if s.len() == 0 {
        seq![]
    } else {
        escaped(s.drop_last()) + if s.last() == '"' {
            seq!['\\', '"']
        } else {
            seq![s.last()]
        }
    }
}

/// The SSH command that uses the key at `path` and no other identity.
pub open spec fn ssh_command_for(path: Seq<char>) -> Seq<char> {
    "ssh -i \""@ + escaped(path) + "\" -o IdentitiesOnly=yes"@
}

/// What the transport is given for a configured key path: nothing when no key
/// (or a blank one) is set; an error when the key lives under `~/` and no home
/// directory is known; else the SSH command for the expanded path.
pub open spec fn ssh_setting(key: Option<Seq<char>>, home: Option<Seq<char>>) -> Result<
    Option<Seq<char>>,
    (),
> {
    match key {
        None => Ok(None),
        Some(k) => if blank(k) {
            Ok(None)
        } else if starts_with(k, "~/"@) {
            match home {
                Some(h) => Ok(Some(ssh_command_for(expanded(k, h)))),
                None => Err(()),
            }
        } else {
            Ok(Some(ssh_command_for(k)))
        },
    }
}

fn is_blank(s: &str) -> (r: bool)
    ensures
        r == blank(s@),
{
    let n = s.unicode_len();
    let mut i: usize = 0;
    while i < n
        invariant
            n == s@.len(),
            i <= n,
            forall|j: int| 0 <= j < i ==> is_white_space(#[trigger] s@[j]),
        decreases n - i,
    {
        if !white_space(s.get_char(i)) {
            return false;
        }
        i = i + 1;
    }
    true
}

/// `s` with its double quotes escaped.
pub fn escape_quotes(s: &str) -> (r: String)
    ensures
        r@ == escaped(s@),
{
    proof {
        reveal_strlit("\\\"");
    }
    let n = s.unicode_len();
    let mut out = String::new();
    let mut i: usize = 0;
    while i < n
        invariant
            n == s@.len(),
            i <= n,
            out@ == escaped(s@.subrange(0, i as int)),
        decreases n - i,
    {
        proof {
            assert(s@.subrange(0, i + 1).drop_last() =~= s@.subrange(0, i as int));
        }
        let ghost piece = s@.subrange(0, i + 1);
        assert(piece.last() == s@[i as int]);
        if s.get_char(i) == '"' {
            let quote = "\\\"";
            proof {
                reveal_strlit("\\\"");
                assert(quote@.len() == 2);
                assert(quote@[0] == '\\');
                assert(quote@[1] == '"');
                assert(quote@ =~= seq!['\\', '"']);
            }
            out.append(quote);
        } else {
            let one = s.substring_char(i, i + 1);
            assert(one@ =~= seq![s@[i as int]]);
            out.append(one);
        }
        assert(out@ =~= escaped(s@.subrange(0, i + 1)));
        i = i + 1;
    }
    assert(s@.subrange(0, n as int) =~= s@);
    out
}

/// The SSH command for the configured key, if any (see `ssh_setting`).
pub fn ssh_command(key_path: Option<&str>, home: Option<&str>) -> (r: Result<
    Option<String>,
    AppError,
>)
    ensures
        ssh_setting(
            match key_path {
                Some(k) => Some(k@),
                None => None,
            },
            match home {
                Some(h) => Some(h@),
                None => None,
            },
        ) matches Ok(c) ==> (r matches Ok(o) && match (o, c) {
            (Some(x), Some(y)) => x@ == y,
            (None, None) => true,
            _ => false,
        }),
        ssh_setting(
            match key_path {
                Some(k) => Some(k@),
                None => None,
            },
            match home {
                Some(h) => Some(h@),
                None => None,
            },
        ) is Err ==> r matches Err(AppError::Config(_)),
{
    let key = match key_path {
        Some(k) => k,
        None => return Ok(None),
    };
    if is_blank(key) {
        return Ok(None);
    }
    let path = if has_prefix(key, "~/") {
        match home {
            Some(h) => {
                let rest = key.substring_char(1, key.unicode_len());
                String::from_str(h).concat(rest)
            },
            None => return Err(
                AppError::Config(String::from_str("Could not find HOME directory")),
            ),
        }
    } else {
        String::from_str(key)
    };
    let command = concat3(
        "ssh -i \"",
        escape_quotes(path.as_str()).as_str(),
        "\" -o IdentitiesOnly=yes",
    );
    Ok(Some(command))
}

} // verus!
