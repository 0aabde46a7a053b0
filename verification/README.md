# clean_ram_vps

A memory cleaner for Windows servers. It empties working sets, flushes the
modified list or purges the standby list, once or at a fixed interval, and shows
memory, processor load and uptime meanwhile.

- `src/` is a Verus library with what the program decides, but for the
  floating-point percentages, which are made in `app/`: the commands and what
  their status means (`winmem`), the modes (`mode`), the intervals (`interval`),
  the automatic loop (`worker`), the system monitor (`monitor`), the window's
  state (`cleaner`), and numbers as text (`text`). Each function carries a
  contract; proof functions whose names start with `law_` state what holds of
  the library as a whole.
- `app/` is the program around it: the system call, the threads, the sampling
  and the drawing.
- `tests/` runs the library on concrete values.
- `extras/` holds the resource script with the icon and the version data of the
  Windows executable.

The commands succeed only with administrator rights.
