# rusticity

A verified library for a terminal console of AWS services (CloudFormation,
EC2, ECR, EFS, FSx, IAM, Lambda, SQS, KMS, CloudTrail, CloudWatch alarms and
logs, API Gateway, S3). It holds the logic of the console: the state of each
service view and the actions on it (paging, filtering, column choice, tabs,
tree rows of API Gateway routes and resources), the records the console shows
and how they are built from what the AWS APIs return, sorting, timestamp and
label formatting, console URLs, the metric queries of the EFS monitoring
graphs and the series built from their results, and the reading of the
shared AWS config and credentials files.

Layout:

- `src/` — the library, written and proved with Verus. `src/cloud/` turns the
  plain descriptions of AWS responses into the console's records; the other
  modules hold the per-service state and actions and shared helpers.
- `tests/` — tests of the library, run with the real outside crates.
- `app/` — what stays outside the proofs: reading the AWS files from disk and
  the byte-size formatting that works on floating point.

Requests to AWS, the terminal loop and drawing are not part of this crate:
the library takes what a client fetched as plain values.
