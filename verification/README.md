# agent_tasks

Turns webhooks into tasks for a coding agent, and those tasks into Kubernetes jobs.

Two services share the library. The *ingester* validates Bitbucket and Jira webhooks, and Jira
messages that come over Pub/Sub, and publishes a task for each one that calls for work. The
*orchestrator* takes the tasks from the broker, has a job scheduled for each, and settles the
message.

`src/` is the library, verified with Verus:

| module         | what it holds                                                              |
| -------------- | -------------------------------------------------------------------------- |
| `text`         | equality, search, decimal numerals, and text from bytes                    |
| `json`         | JSON values and their reading                                              |
| `wire`         | the passage to and from `serde_json`: values, parser, printer              |
| `headers`      | request headers                                                            |
| `webhook`      | which requests become tasks, and what the tasks say                        |
| `ingest`       | answers to webhooks, published messages, bridged Pub/Sub messages          |
| `job`          | the Kubernetes job that works on a task                                    |
| `orchestrator` | the states of a task message, and its settlement                           |
| `config`       | settings and their defaults                                                |
| `laws`         | what holds of the service as a whole, such as that published tasks are read back |

`app/` is the program around it: HTTP, the broker, Pub/Sub and the Kubernetes API. It is run as
`agent_tasks ingester` or `agent_tasks orchestrator`.
