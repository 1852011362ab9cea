//! The command grammar: free-form comment text to a structured command.
use vstd::prelude::*;
use crate::error::BotError;
use crate::text::{chars_from, chars_of, has_prefix, split_words, string_of, text_is, trim, trim_chars, words};

verus! {

/// What `str::to_lowercase` gives for a text.
pub uninterp spec fn lower_of(s: Seq<char>) -> Seq<char>;

/// Relies on `str::to_lowercase`: the lowercase mapping of a text, which
/// depends on its characters alone.
#[verifier::external_body]
fn lowercase(s: &str) -> (r: String)
    ensures
        r@ == lower_of(s@),
{
    s.to_lowercase()
}

/// A command addressed to the bot.
#[derive(Debug, PartialEq, Eq)]
pub enum BotCommand {
    /// Create and start an experiment comparing the toolchains, in order.
    Run { toolchains: Vec<String> },
    Status,
    Abort,
    Help,
    List,
}

/// The texts of a list of strings.
pub open spec fn texts(v: Seq<String>) -> Seq<Seq<char>> {
    v.map_values(|s: String| s@)
}

/// What a command word (already lower-cased) and the words after it make:
/// `run` with at least two toolchains, `status`, `abort`, `help` or `list`;
/// anything else is an invalid command.
pub open spec fn keyword_outcome(
    keyword: Seq<char>,
    args: Seq<Seq<char>>,
    r: Result<Option<BotCommand>, BotError>,
) -> bool {
    if keyword == "run"@ {
        if args.len() < 2 {
            r matches Err(BotError::InvalidCommand(_))
        } else {
            r matches Ok(Some(BotCommand::Run { toolchains })) && texts(toolchains@) == args
        }
    } else if keyword == "status"@ {
        r matches Ok(Some(BotCommand::Status))
    } else if keyword == "abort"@ {
        r matches Ok(Some(BotCommand::Abort))
    } else if keyword == "help"@ {
        r matches Ok(Some(BotCommand::Help))
    } else if keyword == "list"@ {
        r matches Ok(Some(BotCommand::List))
    } else {
        r matches Err(BotError::InvalidCommand(_))
    }
}

/// The words of a comment after the trigger prefix, when the trimmed comment
/// begins with it.
pub open spec fn command_words(text: Seq<char>, prefix: Seq<char>) -> Seq<Seq<char>> {
    words(trim(text).skip(prefix.len() as int))
}

/// What `parse` makes of a comment: no command unless the trimmed comment
/// begins with the prefix; `help` when nothing follows the prefix; else the
/// first word, lower-cased, selects the command, and the words after it are
/// its arguments, kept as written.
pub open spec fn parse_outcome(
    text: Seq<char>,
    prefix: Seq<char>,
    r: Result<Option<BotCommand>, BotError>,
) -> bool {
    let ws = command_words(text, prefix);
    if !prefix.is_prefix_of(trim(text)) {
        r matches Ok(None)
    } else if ws.len() == 0 {
        r matches Ok(Some(BotCommand::Help))
    } else {
        keyword_outcome(lower_of(ws[0]), ws.skip(1), r)
    }
}

impl BotCommand {
    /// Builds the command that a command word selects. `keyword` is the word
    /// lower-cased, `word` the word as written (quoted in the error for an
    /// unknown command), `args` the words that follow it.
    pub fn from_keyword(keyword: &str, word: &str, args: Vec<String>) -> (r: Result<
        Option<BotCommand>,
        BotError,
    >)
        ensures
            keyword_outcome(keyword@, texts(args@), r),
    {
        let k = chars_of(keyword);
        if text_is(k.as_slice(), "run") {
            if args.len() < 2 {
                return Err(
                    BotError::InvalidCommand(
                        String::from_str(
                            "run 命令需要至少两个工具链参数。用法: @crater-bot run <toolchain1> <toolchain2>",
                        ),
                    ),
                );
            }
            Ok(Some(BotCommand::Run { toolchains: args }))
        } else if text_is(k.as_slice(), "status") {
            Ok(Some(BotCommand::Status))
        } else if text_is(k.as_slice(), "abort") {
            Ok(Some(BotCommand::Abort))
        } else if text_is(k.as_slice(), "help") {
            Ok(Some(BotCommand::Help))
        } else if text_is(k.as_slice(), "list") {
            Ok(Some(BotCommand::List))
        } else {
            let mut m = String::from_str("未知命令: ");
            m.append(word);
            m.append(". 使用 'help' 查看可用命令");
            Err(BotError::InvalidCommand(m))
        }
    }

    /// Reads a command from comment text. A comment that does not begin with
    /// `trigger_prefix` (after trimming) is no command: `Ok(None)`. Nothing
    /// after the prefix means `Help`. Otherwise the first word, compared
    /// without regard to case, selects the command; `run` needs at least two
    /// toolchains after it, and an unknown word is an error.
    pub fn parse(text: &str, trigger_prefix: &str) -> (r: Result<Option<Self>, BotError>)
        ensures
            parse_outcome(text@, trigger_prefix@, r),
            !trigger_prefix@.is_prefix_of(trim(text@)) ==> r matches Ok(None),
    {
        let all = chars_of(text);
        let t = trim_chars(all.as_slice());
        let p = chars_of(trigger_prefix);
        if !has_prefix(t.as_slice(), p.as_slice()) {
            return Ok(None);
        }
        let rest = chars_from(t.as_slice(), p.len());
        let parts = split_words(rest.as_slice());
        let ghost ws = command_words(text@, trigger_prefix@);
        assert(parts@.map_values(|w: Vec<char>| w@) == ws);
        if parts.len() == 0 {
            return Ok(Some(BotCommand::Help));
        }
        assert(parts@[0]@ == ws[0]);
        let word = string_of(parts[0].as_slice());
        let keyword = lowercase(word.as_str());
        let mut args: Vec<String> = Vec::new();
        let mut i: usize = 1;
        while i < parts.len()
            invariant
                1 <= i <= parts@.len(),
                ws == parts@.map_values(|w: Vec<char>| w@),
                texts(args@) == ws.skip(1).take(i - 1),
            decreases parts@.len() - i,
        {
            let a = string_of(parts[i].as_slice());
            let ghost before = args@;
            args.push(a);
            assert(texts(args@) =~= texts(before).push(a@));
            i = i + 1;
            assert(ws.skip(1).take(i - 1) =~= ws.skip(1).take(i - 2).push(ws[i - 1]));
        }
        assert(ws.skip(1).take(i - 1) =~= ws.skip(1));
        BotCommand::from_keyword(keyword.as_str(), word.as_str(), args)
    }
}

} // verus!
