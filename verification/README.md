# rdev

Grabs, filters and listens to keyboard and mouse events.

`src/` is the verified library. It decides; it does no input or output of its own.

- `rdev`: keys, buttons, events and errors.
- `linux::codes`, `linux::keymap`: the kernel's key codes and what they mean.
- `linux::devices`: which files under `/dev/input` are read.
- `linux::setup`: how the devices are set up, each with an output of its own.
- `linux::watch`: how devices and the device directory are watched and told apart.
- `linux::filter`, `linux::filter_laws`: the loop that passes the events of the grabbed devices
  through a filter, and what holds of all its runs.
- `linux::grab`: grabbing the keyboard from the X server and calling back.
- `windows::listen`: the hooks, and the loop that listens until it is told to stop.

The loops are step functions: each call takes what came of the last action and gives the next.
`app/` runs them against the devices (`evdev_filter`), the X server (`x11_grab`) and the hooks of
Windows (`hooks`).
