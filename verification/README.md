# agentwarden

An AI-agent tool-call policy gate. An agent's proposed action is checked
against a hot-reloadable policy and answered `allow`, `deny` or `ask`: the
decision only, not sandboxing or execution.

`src/` is a library in Verus: every function states in `ensures` what it
returns, and Verus proves it. `app/` is the program around it: the command
line, the environment, the policy file, and the HTTP service.

| Module    | What it holds |
|-----------|---------------|
| `types`   | validated names and ids, the tool call, actions and decisions |
| `policy`  | rules as written, how they are compiled, and when a rule applies |
| `engine`  | which decision a policy gives a call |
| `store`   | the policy in force, and what a reload does to it |
| `server`  | who may force a reload, and what the reload daemon does next |
| `config`  | the configuration, by the environment and over defaults |
| `error`   | errors, and what a client is told of them |
| `pattern` | regexes and globs, as `regex` and `globset` have them |
| `text`    | strings, trimming, numbers |

What is taken from other crates, and from `std`, without proof is marked
`external_body` or `assume_specification`, with a comment that says what is
claimed. The properties of the library as a whole are the proof functions whose
names begin with `law_`.

## Policy

The first rule that applies wins; otherwise the default does. A rule matches
the whole command (`exact`), its beginning (`prefix`), some part of it
(`regex`) or the whole of it by a pattern (`glob`), and may be scoped to an
agent or a tool. A bare string denies the commands that begin with it.

Matching is by string patterns, not by parsing a shell. Only leading and
trailing white space is normalized, and `ls; rm -rf /` begins with `ls`. Treat
the decision as defense in depth over a cooperative agent.
