# open_donate

The verified core of Glint, a donation platform for streamers: viewers
donate on a streamer's page, and the donation appears as an alert on the
streamer's broadcast overlay.

`src/` is a Verus library, checked by Verus: its public functions carry
contracts, and the laws that relate them are proof functions. The few
calls into outside code (Argon2, URL encoding, random numbers, and
appending a character to a string) sit behind small trusted wrappers.
The modules:

- `db` — payment methods, donation statuses and streamer profiles, with the
  text each enum is stored and shown as, and the proof that stored values
  read back unchanged.
- `payments` — the mock payment service (an in-memory map from transaction
  to status), the payment link or QR payload shown to a donor, and the
  normalisation of a donor's name and message.
- `overlay` — the server's checks on overlay sessions, the "overlay active"
  test, and the overlay page's state machine (polling, claiming donations
  one at a time, sound fallback).
- `auth` — registration checks, Argon2 hashing and verification, and the
  sign-in decision.
- `profile` — a new streamer's username, display name and avatar, profile
  edit checks, and the names, links and titles derived from a profile.
- `navigation`, `pagination`, `analytics`, `media`, `sitemap` — links and
  language switching, donation-history paging, analytics chart data, alert
  media and storage URLs, and the sitemap and robots.txt.
- `text` — the string primitives the rest is built on.

`app/` is the server around the library: configuration, PostgreSQL access
through sqlx, sessions, object storage, and the HTTP routes.
