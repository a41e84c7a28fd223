# conti

A single-shot updater for Docker containers. Conti finds the running containers
labelled `autoupdate=true`, pulls the image of each, and recreates a container whose
image has changed, with all its settings. If the new container does not start up, the
old one is put back, and the image is not tried again until a different one appears.

The decisions are a library verified with Verus; a small program around it talks to
Docker, to the SMTP server and to the disk.

## Layout

- `src/`: the verified library
  - `text`, `image`, `container`: strings, image references, container settings
  - `startup`: the verdict on a container that was just started
  - `failed`: the log of updates that were rolled back
  - `update`, `session`: the update of one container as a state machine
  - `docker`: what an update leaves behind in Docker
  - `mail`, `notify`, `report`: the summary email, its settings and its wording
- `app/`: the program
- `tests/`: tests of the library

## What is proved

Each function states what it returns for every input, as far as that does not rest on
the time or on the machine. Where it does, a second function is given what came of it
and states what is returned then: `transport_by` the checks on the server's
certificate, `deliver_by` the way to the server. Beyond that, public proof functions
whose names begin with `law_` state what holds of the library as a whole. Among them:

- the old container is removed only after the new one was found to be up, whatever
  Docker answers, as long as it gives the new container an id of its own;
- unless Docker refuses the rollback itself, an update that is over leaves one of the
  two under the container's name;
- after a rollback the failed container is gone, the old one runs under its own name,
  and the image was handed to the log; once its line stands there, it is skipped in the
  next run;
- a new container is created with every setting of the old one;
- an update comes to an end;
- the summary email covers every update and every failure.

## What is trusted

`bollard` supplies types that the library only carries through. `lettre` reads
addresses, composes messages and sets up the connection; what the proofs rest on is
written above each of its functions in `src/mail.rs`.

## Labels

| Label | Meaning |
|---|---|
| `autoupdate=true` | update this container |
| `autoupdate.timeout=<seconds>` | how long a new container may take to start up; 60 by default |

## Email

With `SMTP_HOST` set, a summary is sent after each run that has something to report.

| Variable | Meaning | Default |
|---|---|---|
| `SMTP_HOST` | server; without it there is no email | |
| `SMTP_PORT` | port | `587` |
| `SMTP_USERNAME`, `SMTP_PASSWORD` | credentials, used where both are set | |
| `SMTP_FROM` | sender | |
| `SMTP_TO` | recipients, separated by commas | |
| `SMTP_ENCRYPTION` | `starttls`, `tls` or `none` | `starttls` |
| `SMTP_NOTIFY` | `all` or `errors` | `all` |
| `SMTP_ACCEPT_INVALID_CERTS` | `true` or `false` | `false` |
