# Nixy greeter

A minimal GTK4 login form for greetd. `src/` is its policy as a verified library;
`app/` is the program around it: the window, the socket of greetd and the power
commands.

| module | what it holds |
| --- | --- |
| `login` | the login attempt: what is sent to greetd and asked of the user |
| `login_laws` | what holds of every course of a login attempt |
| `form` | the login form: what it shows, and what each gesture and event does |
| `form_laws` | what holds of every course of the form |
| `worker` | what becomes of requests and power actions, and the simulation of a demo |
| `options` | the command line |
| `protocol` | the messages of greetd |
| `secret` | secrets in memory, on top of `zeroize` |
| `text` | white space and letter case in challenges |

```sh
nixy-greeter --demo
nixy-greeter --session /absolute/session-launcher --systemctl /absolute/systemctl
```

The password is supplied only to the conventional `Password:` challenge, once. Other
prompts need an explicit response. A failed connection is not reused. Power controls
need two presses, and run only the configured executable. A demo touches nothing.
