# vif

A service that indexes media links by their embeddings and searches them by
text, per user, on top of a Qdrant vector database and the Gemini embedding
API.

- `src/` is the verified library (Verus): configuration defaults, the Gemini
  request bodies and the judging of its replies, the keys under which queries
  and media are stored, the step-by-step search and indexing procedures, the
  reading and writing of stored records, the paging through a user's links,
  the accept loop over several listeners, and the error replies of the routes.
- `app/` is the program around it: loading the configuration, the HTTP
  server and its routes, and every call to the database, the network and the
  clock, in the order the library's procedures ask for.
- `tests/` exercises the library on concrete values.
