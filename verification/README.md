# StreamDrop

A private video streaming service: a video record and share link are made
before the upload, the source file is uploaded, and a background worker
transcodes it into HLS (720p + 360p where the source allows).

`src/` is the verified library, checked with Verus:

- `config` — upload limit and accepted MIME types / extensions
- `service` — validation, upload state checks, and the records and answers
  of each API call
- `db` — what each store write does to a video or job record; splitting
  the schema script into statements
- `models`, `dto`, `errors` — records, API bodies, typed errors
- `worker` — retry policy, reading ffprobe/ffmpeg results, the rendition
  ladder and commands, and the processing pipeline as a state machine
- `laws` — properties of the whole: the video state machine (refused
  moves included), re-uploads queueing the video's job again, the retry
  schedule and its due times, lock expiry and refresh, no upscaling, the
  order of processing stages
- `text`, `utils` — verified string helpers, identifiers and timestamps

`app/` is the server and worker around it (axum, sqlx, tokio): it performs
the I/O the library asks for. The store's unique indexes (video id, share
token, job idempotency key) are what keep a second record with the same
key out.
