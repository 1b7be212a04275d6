# libredfish

A Redfish client library for BMCs (Dell iDRAC, Lenovo XClarity, Supermicro,
HPE iLO, Nvidia DPU and GB200 OpenBMC), verified with Verus.

## Layout

- `src/` is the verified library. It builds every request a call sends (method,
  path below `redfish/v1`, JSON body, timeout) and takes every decision made on
  what the BMC answers: vendor detection, boot order changes, lockdown plans and
  their status, pending BIOS attributes, collection member ids, and so on. Each
  public function has a contract over mathematical models (`JsonView` for JSON
  documents, `RequestView` for requests, `Seq<char>` for text); proof functions
  state the laws that tie the calls together, such as that the status read back
  after a lockdown is the one the lockdown asked for.
- `app/` is the unverified shell: the blocking HTTPS transport (`reqwest`), the
  `serde` copies of the resource types, the conversion between
  `serde_json::Value` and the library's `JsonValue`, the error type with
  `Display` (`thiserror`), and the `Redfish` trait with one implementation per
  vendor that fetches documents, hands them to the library and sends the
  requests it returns.
- `tests/` runs the library on concrete documents.
