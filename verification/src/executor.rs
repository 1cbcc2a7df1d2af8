//! Building the argument vector for each operation of the external tool,
//! and classifying the outcome of a finished process.
//!
//! Spawning the process is input/output and stays with the caller: it runs
//! the tokens a builder here returns, then hands the exit code and the
//! captured output bytes to [`classify_outcome`].

use vstd::prelude::*;

use crate::error::JJError;
use crate::json::{json_from_str, json_model, json_of_text};
use crate::models::string_seq_view;
use crate::text::{
    format_i64, format_u64, push_str, signed_decimal_of, utf8_decode, utf8_decode_lossy,
    utf8_lossy_of, utf8_of, decimal_of,
};

verus! {

/// The view of an optional borrowed string.
pub open spec fn opt_str_view(o: Option<&str>) -> Option<Seq<char>> {
    match o {
        Some(s) => Some(s@),
        None => None,
    }
}

/// The tokens a repository scope contributes: the scope flag and the path
/// when one is set, and nothing otherwise.
pub open spec fn scope_prefix(scope: Option<Seq<char>>) -> Seq<Seq<char>> {
    match scope {
        Some(p) => seq!["--repository"@, p],
        None => Seq::empty(),
    }
}

/// The full argument vector for one operation: the scope prefix, then the
/// operation's own tokens.
pub open spec fn scoped(scope: Option<Seq<char>>, op: Seq<Seq<char>>) -> Seq<Seq<char>> {
    scope_prefix(scope) + op
}

/// The tokens an optional flag contributes: the flag and its value when the
/// value is present, and nothing otherwise — never an empty placeholder.
pub open spec fn opt_flag(flag: Seq<char>, value: Option<Seq<char>>) -> Seq<Seq<char>> {
    match value {
        Some(v) => seq![flag, v],
        None => Seq::empty(),
    }
}

/// Law: a set repository scope contributes exactly the two leading tokens
/// `--repository <path>` before the operation's own tokens, and an unset
/// scope contributes nothing.
pub proof fn lemma_scope_prefix(scope: Option<Seq<char>>, op: Seq<Seq<char>>)
    ensures
        scope is None ==> scoped(scope, op) == op,
        scope matches Some(p) ==> scoped(scope, op) =~= seq!["--repository"@, p] + op
            && scoped(scope, op).len() == op.len() + 2 && scoped(scope, op)[0] == "--repository"@
            && scoped(scope, op)[1] == p,
{
    if scope is None {
        assert(scoped(scope, op) =~= op);
    }
}

/// Translates one logical operation into the argument vector of an
/// invocation of the external tool, scoped to one repository when a path
/// was given at construction.
pub struct JJExecutor {
    pub repo_path: Option<String>,
}

impl JJExecutor {
    /// The scope this executor applies to every operation.
    pub open spec fn scope(&self) -> Option<Seq<char>> {
        match self.repo_path {
            Some(p) => Some(p@),
            None => None,
        }
    }

    /// An executor without a repository scope: the tool resolves the
    /// repository from its working directory.
    pub fn new() -> (r: Self)
        ensures
            r.scope() is None,
    {
        Self { repo_path: None }
    }

    /// An executor scoped to the repository at the given path.
    pub fn with_repo(repo_path: String) -> (r: Self)
        ensures
            r.scope() == Some(repo_path@),
    {
        Self { repo_path: Some(repo_path) }
    }

    /// The scope prefix of every invocation this executor builds.
    fn scoped_base(&self) -> (v: Vec<String>)
        ensures
            string_seq_view(v@) == scope_prefix(self.scope()),
    {
        let mut v: Vec<String> = Vec::new();
        match &self.repo_path {
            Some(p) => {
                v.push("--repository".to_owned());
                v.push(p.clone());
                proof {
                    assert(string_seq_view(v@) =~= scope_prefix(self.scope()));
                }
            },
            None => {
                proof {
                    assert(string_seq_view(v@) =~= scope_prefix(self.scope()));
                }
            },
        }
        v
    }

    /// The `status` invocation.
    pub fn status(&self) -> (r: Vec<String>)
        ensures
            string_seq_view(r@) == scoped(self.scope(), seq!["status"@]),
    {
        let mut v = self.scoped_base();
        v.push("status".to_owned());
        proof {
            assert(string_seq_view(v@) =~= scoped(self.scope(), seq!["status"@]));
        }
        v
    }

    /// The `log` invocation: structured output, with `-n <limit>` appended
    /// exactly when a limit is given.
    pub fn log(&self, limit: Option<usize>) -> (r: Vec<String>)
        ensures
            string_seq_view(r@) == scoped(
                self.scope(),
                seq!["log"@, "--no-graph"@, "-T"@, "json"@] + (match limit {
                    Some(n) => seq!["-n"@, decimal_of(n as nat)],
                    None => Seq::empty(),
                }),
            ),
    {
        let mut v = self.scoped_base();
        v.push("log".to_owned());
        v.push("--no-graph".to_owned());
        v.push("-T".to_owned());
        v.push("json".to_owned());
        match limit {
            Some(n) => {
                v.push("-n".to_owned());
                v.push(format_u64(n as u64));
                proof {
                    assert(string_seq_view(v@) =~= scoped(
                        self.scope(),
                        seq!["log"@, "--no-graph"@, "-T"@, "json"@, "-n"@, decimal_of(n as nat)],
                    ));
                    assert(seq!["log"@, "--no-graph"@, "-T"@, "json"@, "-n"@, decimal_of(n as nat)]
                        =~= seq!["log"@, "--no-graph"@, "-T"@, "json"@] + seq![
                        "-n"@,
                        decimal_of(n as nat),
                    ]);
                }
            },
            None => {
                proof {
                    assert(seq!["log"@, "--no-graph"@, "-T"@, "json"@]
                        =~= seq!["log"@, "--no-graph"@, "-T"@, "json"@] + Seq::<Seq<char>>::empty());
                    assert(string_seq_view(v@) =~= scoped(
                        self.scope(),
                        seq!["log"@, "--no-graph"@, "-T"@, "json"@],
                    ));
                }
            },
        }
        v
    }

    /// The `diff` invocation, restricted to one revision when given.
    pub fn diff(&self, revision: Option<&str>) -> (r: Vec<String>)
        ensures
            string_seq_view(r@) == scoped(
                self.scope(),
                seq!["diff"@] + opt_flag("-r"@, opt_str_view(revision)),
            ),
    {
        let mut v = self.scoped_base();
        v.push("diff".to_owned());
        match revision {
            Some(rev) => {
                v.push("-r".to_owned());
                v.push(rev.to_owned());
            },
            None => {},
        }
        proof {
            assert(string_seq_view(v@) =~= scoped(
                self.scope(),
                seq!["diff"@] + opt_flag("-r"@, opt_str_view(revision)),
            ));
        }
        v
    }

    /// The `init <path>` invocation.  Initialisation never takes a scope:
    /// the path itself says where the repository is created.
    pub fn init(path: &str) -> (r: Vec<String>)
        ensures
            string_seq_view(r@) == seq!["init"@, path@],
    {
        let mut v: Vec<String> = Vec::new();
        v.push("init".to_owned());
        v.push(path.to_owned());
        proof {
            assert(string_seq_view(v@) =~= seq!["init"@, path@]);
        }
        v
    }

    /// The `new` invocation, with `-m <message>` appended when given.
    pub fn new_change(&self, message: Option<&str>) -> (r: Vec<String>)
        ensures
            string_seq_view(r@) == scoped(
                self.scope(),
                seq!["new"@] + opt_flag("-m"@, opt_str_view(message)),
            ),
    {
        let mut v = self.scoped_base();
        v.push("new".to_owned());
        match message {
            Some(m) => {
                v.push("-m".to_owned());
                v.push(m.to_owned());
            },
            None => {},
        }
        proof {
            assert(string_seq_view(v@) =~= scoped(
                self.scope(),
                seq!["new"@] + opt_flag("-m"@, opt_str_view(message)),
            ));
        }
        v
    }

    /// The `describe -m <message>` invocation, aimed at one change when an
    /// identifier is given.
    pub fn describe(&self, message: &str, change_id: Option<&str>) -> (r: Vec<String>)
        ensures
            string_seq_view(r@) == scoped(
                self.scope(),
                seq!["describe"@, "-m"@, message@] + opt_flag("-r"@, opt_str_view(change_id)),
            ),
    {
        let mut v = self.scoped_base();
        v.push("describe".to_owned());
        v.push("-m".to_owned());
        v.push(message.to_owned());
        match change_id {
            Some(id) => {
                v.push("-r".to_owned());
                v.push(id.to_owned());
            },
            None => {},
        }
        proof {
            assert(string_seq_view(v@) =~= scoped(
                self.scope(),
                seq!["describe"@, "-m"@, message@] + opt_flag("-r"@, opt_str_view(change_id)),
            ));
        }
        v
    }

    /// The `bookmark list` invocation: structured output.
    pub fn bookmark_list(&self) -> (r: Vec<String>)
        ensures
            string_seq_view(r@) == scoped(self.scope(), seq!["bookmark"@, "list"@, "-T"@, "json"@]),
    {
        let mut v = self.scoped_base();
        v.push("bookmark".to_owned());
        v.push("list".to_owned());
        v.push("-T".to_owned());
        v.push("json".to_owned());
        proof {
            assert(string_seq_view(v@) =~= scoped(
                self.scope(),
                seq!["bookmark"@, "list"@, "-T"@, "json"@],
            ));
        }
        v
    }

    /// The `bookmark create <name>` invocation, at one revision when given.
    pub fn bookmark_create(&self, name: &str, revision: Option<&str>) -> (r: Vec<String>)
        ensures
            string_seq_view(r@) == scoped(
                self.scope(),
                seq!["bookmark"@, "create"@, name@] + opt_flag("-r"@, opt_str_view(revision)),
            ),
    {
        let mut v = self.scoped_base();
        v.push("bookmark".to_owned());
        v.push("create".to_owned());
        v.push(name.to_owned());
        match revision {
            Some(rev) => {
                v.push("-r".to_owned());
                v.push(rev.to_owned());
            },
            None => {},
        }
        proof {
            assert(string_seq_view(v@) =~= scoped(
                self.scope(),
                seq!["bookmark"@, "create"@, name@] + opt_flag("-r"@, opt_str_view(revision)),
            ));
        }
        v
    }

    /// The `bookmark track <name>` invocation.
    pub fn bookmark_track(&self, name: &str) -> (r: Vec<String>)
        ensures
            string_seq_view(r@) == scoped(self.scope(), seq!["bookmark"@, "track"@, name@]),
    {
        let mut v = self.scoped_base();
        v.push("bookmark".to_owned());
        v.push("track".to_owned());
        v.push(name.to_owned());
        proof {
            assert(string_seq_view(v@) =~= scoped(
                self.scope(),
                seq!["bookmark"@, "track"@, name@],
            ));
        }
        v
    }

    /// The `bookmark delete <name>` invocation.
    pub fn bookmark_delete(&self, name: &str) -> (r: Vec<String>)
        ensures
            string_seq_view(r@) == scoped(self.scope(), seq!["bookmark"@, "delete"@, name@]),
    {
        let mut v = self.scoped_base();
        v.push("bookmark".to_owned());
        v.push("delete".to_owned());
        v.push(name.to_owned());
        proof {
            assert(string_seq_view(v@) =~= scoped(
                self.scope(),
                seq!["bookmark"@, "delete"@, name@],
            ));
        }
        v
    }

    /// The `git fetch` invocation, from one remote when given.
    pub fn git_fetch(&self, remote: Option<&str>) -> (r: Vec<String>)
        ensures
            string_seq_view(r@) == scoped(
                self.scope(),
                seq!["git"@, "fetch"@] + opt_flag("--remote"@, opt_str_view(remote)),
            ),
    {
        let mut v = self.scoped_base();
        v.push("git".to_owned());
        v.push("fetch".to_owned());
        match remote {
            Some(rem) => {
                v.push("--remote".to_owned());
                v.push(rem.to_owned());
            },
            None => {},
        }
        proof {
            assert(string_seq_view(v@) =~= scoped(
                self.scope(),
                seq!["git"@, "fetch"@] + opt_flag("--remote"@, opt_str_view(remote)),
            ));
        }
        v
    }

    /// The `git push` invocation, restricted to one bookmark when given.
    pub fn git_push(&self, bookmark: Option<&str>) -> (r: Vec<String>)
        ensures
            string_seq_view(r@) == scoped(
                self.scope(),
                seq!["git"@, "push"@] + opt_flag("--bookmark"@, opt_str_view(bookmark)),
            ),
    {
        let mut v = self.scoped_base();
        v.push("git".to_owned());
        v.push("push".to_owned());
        match bookmark {
            Some(b) => {
                v.push("--bookmark".to_owned());
                v.push(b.to_owned());
            },
            None => {},
        }
        proof {
            assert(string_seq_view(v@) =~= scoped(
                self.scope(),
                seq!["git"@, "push"@] + opt_flag("--bookmark"@, opt_str_view(bookmark)),
            ));
        }
        v
    }
}

/// The rendered exit status: the code in decimal, or the word `signal` when
/// the process was ended before it could exit.
pub open spec fn exit_status_text(code: Option<i32>) -> Seq<char> {
    match code {
        Some(c) => signed_decimal_of(c as int),
        None => "signal"@,
    }
}

/// The diagnostic for a process that finished without success: it carries
/// the numeric exit status and the captured standard-error text.
pub open spec fn command_failure_message(code: Option<i32>, err_text: Seq<char>) -> Seq<char> {
    "JJ command failed with status "@ + exit_status_text(code) + ": "@ + err_text
}

/// The diagnostic for a process that could not be started at all; its prefix
/// keeps it apart from a non-zero exit.
pub open spec fn spawn_failure_message(cause: Seq<char>) -> Seq<char> {
    "Failed to execute jj command: "@ + cause
}

/// Classifies the outcome of a finished process: on exit status zero the
/// captured standard output is decoded as text; any other exit becomes a
/// command failure carrying the status and the standard-error text; output
/// that is not valid text is a distinct decoding failure.
pub fn classify_outcome(code: Option<i32>, stdout: Vec<u8>, stderr: &Vec<u8>) -> (r: Result<
    String,
    JJError,
>)
    ensures
        code == Some(0i32) ==> (utf8_of(stdout@) matches Some(s) ==> (r matches Ok(t) && t@
            == s)),
        code == Some(0i32) && utf8_of(stdout@) is None ==> (r matches Err(e) && e is Utf8Error),
        code != Some(0i32) ==> (r matches Err(e) && e matches JJError::CommandFailed(m) && m@
            == command_failure_message(code, utf8_lossy_of(stderr@))),
{
    let success = match code {
        Some(c) => c == 0,
        None => false,
    };
    if success {
        match utf8_decode(stdout) {
            Ok(s) => Ok(s),
            Err(cause) => Err(JJError::Utf8Error(cause)),
        }
    } else {
        let mut msg = "JJ command failed with status ".to_owned();
        match code {
            Some(c) => {
                let rendered = format_i64(c as i64);
                push_str(&mut msg, rendered.as_str());
            },
            None => {
                push_str(&mut msg, "signal");
            },
        }
        push_str(&mut msg, ": ");
        let err_text = utf8_decode_lossy(stderr);
        push_str(&mut msg, err_text.as_str());
        proof {
            assert(msg@ =~= command_failure_message(code, utf8_lossy_of(stderr@)));
        }
        Err(JJError::CommandFailed(msg))
    }
}

/// The command failure reported when the external tool could not be spawned
/// at all; the caller passes the originating cause.
pub fn spawn_failure_error(cause: &str) -> (r: JJError)
    ensures
        r matches JJError::CommandFailed(m) && m@ == spawn_failure_message(cause@),
{
    let mut msg = "Failed to execute jj command: ".to_owned();
    push_str(&mut msg, cause);
    JJError::CommandFailed(msg)
}

/// Decodes captured output text as generic JSON, for the operations that ask
/// the tool for structured output; text that is not valid JSON is a failure
/// of its own kind.
pub fn decode_json_output(text: &str) -> (r: Result<serde_json::Value, JJError>)
    ensures
        r matches Ok(v) ==> json_of_text(text@) == Some(json_model(v)),
        r is Err <==> json_of_text(text@) is None,
        r matches Err(e) ==> e is JsonError,
{
    match json_from_str(text) {
        Ok(v) => Ok(v),
        Err(cause) => Err(JJError::JsonError(cause)),
    }
}

} // verus!

