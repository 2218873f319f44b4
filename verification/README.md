# foruster

The verified core of a forensic exploration tool: it reads what the operating
system reports of disks, partitions and mounted volumes, walks chosen folders,
sorts the files it meets into profiles by extension and detected content,
flags files whose name hides their real kind, computes the digests of the
files it reports, and writes the text of the report.

- `src/` is the library, verified with Verus. Each public function states what
  it returns over spec functions and views; the laws that relate several
  functions are public proof functions next to them.
  - `storage/`, `foruster_core/`, `layers/`: disks, partitions and volumes, and
    the readers of the Linux (`/sys`, `/proc`) and Windows (descriptor and
    layout buffers) reports.
  - `profiling/`, `foruster_profiles/`: file profiles and the default set.
  - `analysis/`: walking, suspicion rules, the index of findings and the
    course of an analysis.
  - `api/`, `desktop/`: the state the screens show and the decisions behind
    them (paging, redundant folders, disk rows).
  - `reporting/`: digests, line breaking and the text of the report.
  - `text.rs`, `tokens.rs`: text helpers and the few calls into std's Unicode
    tables, behind trusted wrappers.
- `app/` is the command-line program around it: reading the machine, walking
  folders on threads, detecting file formats and laying the report out as a
  PDF.
- `tests/` runs the library on concrete inputs.
