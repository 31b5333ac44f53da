# sylvia-iot-broker routes, verified

The decisions of the Sylvia-IoT broker's HTTP API, and some of those of its message
managers (where downlink data goes, and which application managers uplink data goes to),
written in Verus with their contracts and proved:

- `src/corelib.rs`: the trusted bindings to `sylvia-iot-corelib` (code check, hexadecimal
  addresses, RFC 3339 times), `url` and `str::to_lowercase`, with the spec functions that
  state or name what they compute.
- `src/models.rs`: the records of the data model as the routes read them.
- `src/routes/`: error replies, the version query, and the authorization decisions of the
  authentication middleware (roles, scopes, bearer token).
- `src/routes/v1/`: per resource (`unit`, `application`, `network`, `device`,
  `device_route`, `network_route`, `dldata_buffer`) the request and response types, the
  checks of requests with their exact errors, the conditions of count and list queries, the
  sort conditions, the new records, the changes, and the presentation of records; shared
  modules for access decisions (`lib`), list options and streamed list framing (`list`),
  field checks (`valid`) and bulk and range addresses (`addr`).
- Handlers that read the database and decide in turn are step functions: from the state and
  what happened (a lookup's result, a page, a database error) to the next state and what to
  do (query, write, answer). The list requests (every resource, units included) share
  `list_step`; the creation of a unit, an application, a network, a device, a device route
  and a network route, the bulk and range requests of devices and of device routes, the
  change of a device and the deletion of a unit's resources have their own. Downlink data
  goes by `dldata_step` (with `device_route_dldata`), uplink data by `uldata_step`.
- `src/routes/v1/managers.rs`: the running managers by key, as the control messages add
  and remove them, proved to behave as a map.

`app/` holds the JSON side: the wire forms of the requests and responses with their
conversions, the token information of the authentication service, the loop that runs a
list request's steps against the database, and the version reply. The HTTP server, the
database, the message queues and the start-up are not part of this crate.

`tests/` runs the library on concrete values.
