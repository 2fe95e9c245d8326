# tyl_redis_pubsub_adapter

The decision core of a Redis publish/subscribe adapter, verified with Verus.

`src/` holds what the adapter decides, each function with a contract:

- `redis_pubsub_errors`: the adapter's error type and the wording of its
  messages (connection, publish, subscribe and encoding failures).
- `connection`: parsing the broker URL with the Redis client, and turning a
  Redis error into an adapter error by its kind.
- `publishing`: the steps of a single publish (plain, keyed, complete event)
  as a machine: what to do next, and what the caller is told.
- `batch`: the same for pipelined and transactional batches; a batch that
  succeeds reports one id per event, in order.
- `subscriptions`: the table of active subscriptions (register, remove,
  unsubscribe, status).
- `subscribing`: the steps of `subscribe`, and the decisions of a
  subscription's background listener.

`app/` is the network side: it performs the I/O that the machines ask for
(connections, PUBLISH, pipelines, SUBSCRIBE, the listener task) and
implements the TYL PubSub port's traits on top of the library.
