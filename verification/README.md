# worddrop

File transfer between two machines that pair with a short code such as
`7-adroitness-adviser-aftermath`. The number, the nameplate, is all of the code that the rendezvous
server ever sees, beside the ticket that it keeps for the receiver; the three words become the
password of a SPAKE2 exchange between the two machines. Where a public MQTT broker takes the
server's place, it sees the ticket under a topic that is an Argon2id hash of the whole code.

The library under `src/` is written in Rust and verified with Verus. It holds the rules and the
decisions; the program under `app/` does the I/O and hands it what happened.

| Module | What it holds |
| --- | --- |
| `pairing` | word codes, the word list, the key exchange and its messages |
| `protocol` | length-prefixed frames |
| `session` | the phases of a session and its control messages |
| `transfer` | walking and importing what is sent, receiving and exporting, resume records |
| `rendezvous` | the mailbox server: nameplates, one-shot claims, expiry, rate limits |
| `rendezvous_client` | what is sent to the server or broker, and what its answers mean |
| `send`, `receive`, `wire` | the course of the two commands and of the pairing between them |
| `commands`, `config`, `identity`, `relay`, `cli`, `error`, `ui` | the command line around them |
| `text`, `order` | texts, numbers and the order of names |

What Verus takes on trust are the items marked `external_body` or `assume_specification`; each
says in its doc comment what it claims of the function behind it.
