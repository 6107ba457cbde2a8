# stable_diffusion_bot

A Telegram bot that generates images with Stable Diffusion, through either the
Stable Diffusion web UI API or a ComfyUI workflow.

The decisions the bot makes are a library verified with Verus:

- `workflow`: ComfyUI workflows (nodes, links, the walk from the output node),
  reading and writing generation parameters in them, the prompt builder and
  the image information of a workflow.
- `comfy`: ComfyUI websocket events and history, and which images of a run to
  fetch.
- `sdapi`: web UI requests (merging, builders) and responses (base64 images).
- `params`: the generation parameters of each back end and the requests they
  lead to.
- `bot`: chat states, settings menus and the values typed into them, captions,
  reply keyboards, button presses, access control and the bot builder.
- `numbers`, `text`, `float_bits`: integer parsing and printing, strings, and
  floating-point values held as bit patterns.
- `laws`: properties that relate several operations, proved once for all
  inputs.

`app/` is the program around the library: configuration, logging, the HTTP and
websocket clients, JSON, and the Telegram dispatcher. `tests/` runs the library
on concrete values.
