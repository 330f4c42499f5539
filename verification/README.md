# org

A small web application that stores transaction exports (CSV) on a cloud
drive and mirrors their new records into a ledger workbook there.

- `src/` is the verified library (Verus): SHA-256 digests and their hex text,
  turning export rows into ledger records, finding the records a ledger lacks,
  the requests sent to the drive, the upload as a state machine
  (`upload::UploadFlow`: state and event in, next state and action out), the
  sign-in address and token form, and the error texts. Within a workbook
  session the flow writes one table row per record the ledger lacks, in the
  export's order, before closing the session.
- `app/` is the Rocket application around it: routes, HTTP, the CSV reader,
  the environment, and the loop that performs the upload's actions.
- `tests/` exercises the library with the real outside crates linked.
