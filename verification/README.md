# ttsai

Client of the [TTS.ai](https://tts.ai) REST API, verified with
[Verus](https://github.com/verus-lang/verus).

The library under `src/` holds every decision of the client and no I/O. A
`Client` makes requests as plain values and says what to do with each answer:

```rust
let tts = Client::new(api_key);

let request = tts.generate_async(options);            // what to send
let (retries, step) = tts.json_request(0, outcome);   // again, fail, or read the body
let reply = read_answer(step, body);                  // the reply, or what a refusal means
let step = tts.poll_result(&uuid, result, elapsed);   // done, failed, or look again
let step = tts.generate(GenerateEvent::Submitted(job)); // where the audio is
```

| module           | what it holds                                          |
|------------------|--------------------------------------------------------|
| `client`         | settings, builder and client                           |
| `options`        | what is asked for, and what the service says of a job  |
| `pronunciations` | how words are to be pronounced                         |
| `request`        | the requests: paths, bodies, forms, header fields      |
| `reply`          | retries, refusals, replies                             |
| `session`        | how a job is followed from its submission to its audio |
| `error`          | what can go wrong                                      |
| `json`           | JSON documents                                         |
| `encoding`       | text in query strings                                  |
| `header`         | header fields                                          |
| `text`           | pieces of text                                         |
| `time`           | lengths of time                                        |
| `laws`           | what holds of the client as a whole                    |

`app/` drives the library: it sends with `reqwest`, waits with `tokio`, reads
files and turns JSON into values with `serde`.

JSON objects, JSON numbers and header maps stay in the types of `serde_json` and
`reqwest`. What the library takes for granted about them is stated on the few
functions marked `external_body` and the `assume_specification` items.
