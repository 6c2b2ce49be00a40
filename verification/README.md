# borkcraftclient

The desktop client of BorkCraft, a registry of Minecraft nether portals: a
user logs in, picks a portal, edits its overworld and nether coordinates and
notes, attaches images and sends the changes to the servers.

- `src/` is the verified library (Verus): the portal records and their
  editable text form, the ordered string-keyed tables, the window, selector
  and session state machines, what the client makes of each server answer, the
  image deletion queue, and the laws that relate these operations
  (`src/laws.rs`).
- `app/` is the program around it: the egui window, the HTTP requests (ureq),
  the JSON wire forms (serde), and the threads that fetch portals and images.
- `tests/` runs the library on concrete values.
