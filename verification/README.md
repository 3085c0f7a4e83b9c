# saasexpress

The core of a graph runtime for SaaS integrations, with its decisions
proved correct by Verus.

A graph is a set of operator nodes joined by role-labelled edges. Messages
enter at the start node, pass from operator to operator, and the last
operator answers the message's origin. Graphs are described by documents
(name, nodes with their action and configuration, edges), registered by
name, and their runners are replaced, by revision, whenever an operator they
depend on changes.

## Layout

- `src/` — the verified library:
  - `named`, `graph`, `document`, `reach`, `graph_registry`, `channels`,
    `ports`, `bus`: graph topology (edges are refused when they would close
    a cycle), documents, registries and the start-up wait;
  - `message`, `routing`, `operators`, `claim_check`, `shell`, `configs`,
    `widgets`: what the operators do with messages, and how replies reach
    their origin;
  - `ai_agent`, `ai_model`: the AI agent's conversation as a state machine;
  - `kube`: choosing a Kubernetes client configuration;
  - `json`, `text`, `settings`, `meta`, `status`, `random`, `timestamp`,
    `admin`, `oidc`: values and utilities.
- `tests/` — tests of the library on concrete values.
- `app/` — the input and output around the library: environment variables,
  files, shell processes, reply channels, the start-up wait, and the serde
  forms of kubeconfig files. The graph runtime itself (actors, runner calls,
  the control bus) is not part of this crate.
