# openharmony_ability

The core of an OpenHarmony ability, written in Verus: what an app knows about its
surface, its context and its avoid areas, which events it receives, how it calls the
script side, and in which order its surface is set up.

Everything that decides or computes is in `src/`, with contracts that Verus proves.
Work that only the platform can do is described there as state machines: the library
says which step comes next, the caller performs it and hands back what came of it.

- `app`, `inner`, `identity`, `process`: the state of an app and what apps share
- `helper`, `restart`, `permission`, `settlement`, `tsfn`: calls into the script side
- `object`, `context`, `geometry`, `avoid_area`: what is read from script objects
- `mouse_event`, `event`: input and surface events
- `shared`: values that threads hand to each other
- `xcomponent`: setting up the surface
- `platform`: the platform's own types, which the library only stores and hands back
- `text`: decimal numbers in messages

`app/` connects the library to OpenHarmony: N-API values, native components, locks and
threads. `tests/` runs the library on concrete values.
