# fusen

The verified core of the fusen RPC runtime, written in Verus.

`src/` is the library. Every function in it carries a contract that Verus proves:

- `config`, `validation`, `time`: client settings, their validation and durations.
- `contract`, `ordering`: service selectors, bindings, capabilities and instances.
- `invocation`, `attempt`, `transport`, `error`: endpoint selection, attempt settlement,
  retries, admission, shard choice and the error vocabulary.
- `call`, `selection`: the state machines of one logical invocation (hard attempt
  limit, the retry policy asked only when a retry can fit, paired metric events, a
  service permit settled once) and of one attempt's endpoint selection (routing,
  validated router outputs, breakers, balancer).
- `membership`, `runtime`: endpoint-breaker memberships and runtime lifecycle decisions.
- `subscription`, `directory`, `activation`, `registry`: the discovery supervisor state
  machine, directory revisions and the registration/subscription handle lifecycle.
- `nacos`, `registration`, `config_source`, `round_trip`: the Nacos metadata conventions,
  registration and discovery conversions, configuration documents, and the proof that
  discovery reads back what registration publishes.
- `observability`, `interface`, `builder`, `lifecycle`: metric events and their recording
  plan, interface descriptions, client connection planning and lifecycle errors.

Calls into `url` and `percent-encoding`, and into `std::path` and `Debug` formatting, stand behind
small trusted wrappers whose contracts name what those functions return.

`app/` holds what Verus does not see: serde forms of the settings, std duration
conversions, weighted-random balancing over floating-point weights, OpenTelemetry
recording, and the loops that drive the invocation, selection, supervisor, handle worker and shutdown state
machines.
