use vstd::prelude::*;
use vstd::string::*;
use crate::text::{text_of_bytes, utf8_lossy};
use crate::frame::{append_decimal, decimal, encode_frame, encode_spec, NotificationUpdate, UpdateModel};

verus! {

/// Delay, in seconds, that a new window gets when neither the command line
/// nor the configuration gives one.
pub const SHOWN_DEFAULT_DELAY: u64 = 5;

/// Delay, in seconds, that a forwarded update gets when neither the command
/// line nor the configuration gives one.
pub const FORWARDED_DEFAULT_DELAY: u64 = 3;

/// The socket path that session `session` is reached at.
pub open spec fn endpoint_spec(session: u8) -> Seq<char> {
    seq!['/', 't', 'm', 'p', '/', 'p', 'i', 'n', 'o', '-', 'c', 'h', 'e', 'c', 'k', '-'] + decimal(
        session as nat,
    ) + seq!['.', 's', 'o', 'c', 'k']
}

/// The well-known endpoint of a session: one socket path per session number.
pub fn endpoint_path(session: u8) -> (r: String)
    ensures
        r@ == endpoint_spec(session),
{
    let prefix = "/tmp/pino-check-";
    let suffix = ".sock";
    proof {
        reveal_strlit("/tmp/pino-check-");
        reveal_strlit(".sock");
    }
    let mut out = String::from_str(prefix);
    append_decimal(&mut out, session as u64);
    out.append(suffix);
    assert(out@ =~= endpoint_spec(session));
    out
}

pub open spec fn default_title() -> Seq<char> {
    seq!['T', 'i', 't', 'l', 'e']
}

pub open spec fn option_or<T>(o: Option<T>, d: T) -> T {
    match o {
        Some(v) => v,
        None => d,
    }
}

/// The delay an invocation asks for: the command line's, else the
/// configuration's, else the default for its role.
pub open spec fn delay_spec(arg: Option<u64>, config: Option<u64>, forwarding: bool) -> u64 {
    option_or(
        arg,
        option_or(config, if forwarding { FORWARDED_DEFAULT_DELAY } else { SHOWN_DEFAULT_DELAY }),
    )
}

/// The update an invocation stands for, from what its command line and its
/// configuration give. A title or message left out gets a placeholder text.
pub fn requested_update(
    title: Option<String>,
    message: Option<String>,
    delay: Option<u64>,
    config_delay: Option<u64>,
    forwarding: bool,
) -> (r: NotificationUpdate)
    ensures
        r.title@ == (match title {
            Some(t) => t@,
            None => default_title(),
        }),
        message is Some ==> r.message@ == message->0@,
        message is None ==> r.message@ == "you didn't set the title or message"@,
        r.delay == delay_spec(delay, config_delay, forwarding),
{
    let title = match title {
        Some(t) => t,
        None => {
            proof {
                reveal_strlit("Title");
            }
            let t = String::from_str("Title");
            assert(t@ =~= default_title());
            t
        },
    };
    let message = match message {
        Some(m) => m,
        None => String::from_str("you didn't set the title or message"),
    };
    let fallback = if forwarding {
        FORWARDED_DEFAULT_DELAY
    } else {
        SHOWN_DEFAULT_DELAY
    };
    let config_or_default = match config_delay {
        Some(d) => d,
        None => fallback,
    };
    let delay = match delay {
        Some(d) => d,
        None => config_or_default,
    };
    NotificationUpdate { title, message, delay }
}

/// What an invocation does once it knows whether its session's endpoint
/// answered.
pub enum Startup {
    /// Another instance owns the endpoint: send it this frame and exit
    /// without a window.
    Forward(String),
    /// Nobody answered: become the owner. Remove the stale socket first where
    /// one is left over, then bind the endpoint and open the window.
    Own { remove_stale: bool },
}

/// Decides the role of a new invocation: forward where the endpoint answered,
/// own it otherwise.
pub fn plan_startup(connected: bool, endpoint_exists: bool, update: &NotificationUpdate) -> (r:
    Startup)
    ensures
        connected ==> (r matches Startup::Forward(f) && f@ == encode_spec(update@)),
        !connected ==> r == (Startup::Own { remove_stale: endpoint_exists }),
{
    if connected {
        Startup::Forward(encode_frame(update.title.as_str(), update.message.as_str(), update.delay))
    } else {
        Startup::Own { remove_stale: endpoint_exists }
    }
}

/// How many newlines `s` holds.
pub open spec fn newline_count(s: Seq<char>) -> nat
    decreases s.len(),
{
    if s.len() == 0 {
        0
    } else {
        newline_count(s.drop_last()) + if s.last() == '\n' {
            1nat
        } else {
            0nat
        }
    }
}

proof fn lemma_newline_count_bound(s: Seq<char>)
    ensures
        newline_count(s) <= s.len(),
    decreases s.len(),
{
    if s.len() > 0 {
        lemma_newline_count_bound(s.drop_last());
    }
}

/// How many lines `str::lines` finds in `s`: one per newline, and one more for
/// text after the last newline.
pub open spec fn line_count(s: Seq<char>) -> nat {
    newline_count(s) + if s.len() > 0 && s.last() != '\n' {
        1nat
    } else {
        0nat
    }
}

/// The number of lines in `text`.
pub fn count_lines(text: &str) -> (r: usize)
    ensures
        r as nat == line_count(text@),
{
    let n = text.unicode_len();
    let mut count: usize = 0;
    let mut i: usize = 0;
    while i < n
        invariant
            i <= n,
            n == text@.len(),
            count as nat == newline_count(text@.subrange(0, i as int)),
            count <= i,
        decreases n - i,
    {
        assert(text@.subrange(0, i + 1).drop_last() =~= text@.subrange(0, i as int));
        if text.get_char(i) == '\n' {
            count = count + 1;
        }
        i = i + 1;
    }
    assert(text@.subrange(0, n as int) =~= text@);
    proof {
        if n > 0 {
            lemma_newline_count_bound(text@.drop_last());
        }
    }
    if n > 0 && text.get_char(n - 1) != '\n' {
        count + 1
    } else {
        count
    }
}

/// Whether the process list shows the popup running besides the asking
/// process: the lookup succeeded and listed exactly two processes, one per
/// line of its output.
pub fn is_running(lookup_succeeded: bool, output: &[u8]) -> (r: bool)
    ensures
        r == (lookup_succeeded && line_count(utf8_lossy(output@)) == 2),
{
    if !lookup_succeeded {
        return false;
    }
    let text = text_of_bytes(output);
    count_lines(text.as_str()) == 2
}

} // verus!
