# icloudpd_optimizer

The decisions behind the migration of legacy uploaded HEICs, and behind local mirrors of uploads,
written and proved in Verus.

A cohort of ten assets is migrated together. Sealed *evidence* describes it: the records, the two
uploads that are retired, the five visual references, and where each file goes in quarantine. The
library decides whether evidence may be generated, whether evidence that was read still describes
the state and the disk, and whether a *receipt* may move a cohort to new device numbers or over to
a replaced helper. Every refusal has a category, and every contract says which inputs lead to it.

The library never looks at the system itself. What was read, listed, decoded or answered is handed
to it as an observation, and it says what follows from that.

| Modules | Subject |
| --- | --- |
| `text`, `path`, `identity`, `digest`, `json`, `order`, `error` | texts, paths, digests, sorting |
| `cloudkit`, `phase`, `manifest`, `document`, `quarantine` | the data |
| `sealed`, `signer`, `layout`, `devices` | files, signed programs, quarantine directories, device numbers |
| `canonicalization`, `historical`, `conversion`, `plan`, `audit`, `validation` | what makes a document valid |
| `gather`, `cohort`, `generate`, `output`, `round_trip` | generating evidence and writing it out |
| `load`, `held` | loading evidence and holding it |
| `recovery`, `receipt`, `issue`, `rotate` | receipts |
| `local_mirror` | local mirrors, as a state machine |
| `report` | what a finished migration reports |

`app/` is the program around the library: files, JSON, processes, and the parts of the optimizer
that the migration asks for help. `tests/` runs the library on concrete cohorts.
