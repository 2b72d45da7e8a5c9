# aigw_console

The console of a fleet of AI gateways: it stores sites, clusters and address
lists in MySQL, records every change as a change log, hands each gateway the
changes it has not read yet, passes changes on to the other consoles, obtains
certificates over ACME, and summarises the traffic and load that gateways
report.

## Layout

- `src/` is the library, written in Verus. Its functions have contracts
  that Verus proves, except the small wrappers around outside crates, whose
  contracts are trusted as what those crates' sources show: `push_char`
  (`String::push`), `checked_timestamp` (`time`), `b64url_encode`,
  `b64_standard_encode` and `b64_standard_decode` (`base64`), `sha256`
  (`sha`), `p256_public_key_of` and `p256_sign` (`ring`), `hex_encode`
  (`hex`), `md5` (`md5`), `mask_passwords` (`regex`), `json_string`,
  `parse_counts` and `write_counts` (`serde_json`), and
  `generate_rsa_key_pem`, `signing_request_der` and `generate_p256_pkcs8`
  (`rcgen`). The statements' bound values are in `binds`. The modules:
  - `site`, `site_rows`, `site_update`: checking a site, the rows that store
    it, the plan that brings stored locations and backends in line with a
    changed site, and the site read back from its rows.
  - `changelog`, `connection`: change logs, what a gateway is sent when it
    connects or sends a heartbeat, the frames exchanged with peers, and what
    the console does with each frame.
  - `cluster`, `user`, `cert`, `acme`, `analytics`, `page`, `api`, `config`:
    clusters and address lists, users and sessions, certificate renewal, the
    ACME request signing and waits, traffic summaries, paging, the HTTP
    answers, and the settings.
  - `sql`, `records`, `text`: statements, table rows, and text helpers.
- `tests/` runs the library on concrete values.
- `app/` is the program around the library: the HTTP and TCP servers, the
  MySQL access, the ACME client, the analytics tasks and `main`.
