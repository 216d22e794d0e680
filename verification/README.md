# exactapi

A bridge between Exact Online and the services of an organisation, with its
logic verified by Verus.

- `src/requests`: the Exact Online API. Paths of the account, contact and
  division requests, the meaning of response statuses (`check_status`), the
  records that come back, and the paging of account lists (`AccountPages`
  gathers the accounts of every page and names the path of the next one).
- `src/server`: the web service. Conversion of Exact records into the wire
  model (`account_to_proto`, `contact_to_proto`), the status and text that
  each error is answered with, and the decisions of the list routes (cache
  use, filters).
- `src/client`: the client library of the web service: URLs of its routes
  and the decoding of its answers.
- `src/proto`: the wire model, as plain values.
- `src/text`: decimal rendering and pattern removal on strings.
- `app/`: the HTTP server, the HTTP calls to Exact and to the service, and
  the serde/prost/builder copies of the plain types.

Filters are built as a tree (`FilterExpr`) and rendered to OData by the
caller's filter crate.
